//! Command and response frames of the SCD30's two-wire protocol.
//!
//! Every 16-bit word on the wire travels as a *group*: its two bytes, high byte
//! first, followed by their checksum. A command is a two-byte opcode, optionally
//! followed by one argument group. A response is a run of groups, except for the
//! firmware version, which is two bare bytes.
//!
//! The functions here build the bytes to write and take apart the bytes that
//! were read. Moving those bytes over the bus is the caller's business.

use crate::checksum::{checksum, checksum_of};
use vstd::prelude::*;
use vstd::slice::slice_subrange;

verus! {

/// Seven-bit bus address of the sensor.
pub const DEFAULT_ADDRESS: u8 = 0x61;

/// Length of a group: two data bytes and their checksum.
pub const GROUP_LEN: usize = 3;

/// What can go wrong in one sensor operation.
#[derive(Clone, Copy, Debug, PartialEq, Eq, Structural)]
pub enum Error {
    /// The bus transaction itself failed: no acknowledgement, a timeout, lost
    /// arbitration.
    TransportError,
    /// A checksum byte in the response does not match its two data bytes.
    ChecksumMismatch,
    /// The response does not have the length its operation prescribes.
    UnexpectedResponseLength,
}

/// One measurement. Each field holds the IEEE-754 single-precision bit pattern
/// that the sensor transmitted, untouched.
#[derive(Clone, Copy, Debug, PartialEq, Eq, Structural)]
pub struct SensorData {
    /// CO2 concentration in ppm.
    pub co2: u32,
    /// Temperature in degrees Celsius.
    pub temperature: u32,
    /// Relative humidity in percent.
    pub humidity: u32,
}

/// The operations the driver offers.
#[derive(Clone, Copy, Debug, PartialEq, Eq, Structural)]
pub enum Command {
    /// Ask for the firmware version.
    ReadFirmwareVersion,
    /// Start continuous measurement, compensating for the given ambient
    /// pressure in millibar.
    StartContinuousMeasurement(u16),
    /// Ask whether a new measurement is waiting.
    DataReady,
    /// Fetch the waiting measurement.
    ReadMeasurement,
}

/// The more significant byte of a word.
pub open spec fn high_byte(word: u16) -> u8 {
    (word / 256) as u8
}

/// The less significant byte of a word.
pub open spec fn low_byte(word: u16) -> u8 {
    (word % 256) as u8
}

/// The word with the given bytes.
pub open spec fn word_of(high: u8, low: u8) -> u16 {
    (high * 256 + low) as u16
}

/// The 32-bit value with the given bytes, most significant first.
pub open spec fn be32(b0: u8, b1: u8, b2: u8, b3: u8) -> u32 {
    (((b0 * 256 + b1) * 256 + b2) * 256 + b3) as u32
}

/// A word as it travels: high byte, low byte.
pub open spec fn be_bytes(word: u16) -> Seq<u8> {
    seq![high_byte(word), low_byte(word)]
}

/// The group that carries `word`: its two bytes and the checksum of exactly
/// those two.
pub open spec fn group_of(word: u16) -> Seq<u8> {
    be_bytes(word).push(checksum_of(be_bytes(word)))
}

/// The third byte of `group` is the checksum of its first two.
pub open spec fn group_is_valid(group: Seq<u8>) -> bool {
    group.len() == GROUP_LEN && group[2] == checksum_of(group.subrange(0, 2))
}

/// The word that a group carries.
pub open spec fn group_word(group: Seq<u8>) -> u16 {
    word_of(group[0], group[1])
}

/// The `i`-th group of a response.
pub open spec fn group_at(bytes: Seq<u8>, i: int) -> Seq<u8> {
    bytes.subrange(3 * i, 3 * i + 3)
}

/// `bytes` is exactly `count` groups long.
pub open spec fn holds_groups(bytes: Seq<u8>, count: nat) -> bool {
    bytes.len() == 3 * count
}

/// Every group of the response carries the right checksum.
pub open spec fn all_groups_valid(bytes: Seq<u8>) -> bool {
    forall|i: int| 0 <= i < bytes.len() / 3 ==> group_is_valid(#[trigger] group_at(bytes, i))
}

/// The words of a response, checksums stripped.
pub open spec fn words_of(bytes: Seq<u8>) -> Seq<u16> {
    Seq::new(bytes.len() / 3, |i: int| group_word(group_at(bytes, i)))
}

/// The measurement that an 18-byte response carries. Each value is the
/// concatenation of the data bytes of two consecutive groups.
pub open spec fn measurement_of(bytes: Seq<u8>) -> SensorData {
    SensorData {
        co2: be32(bytes[0], bytes[1], bytes[3], bytes[4]),
        temperature: be32(bytes[6], bytes[7], bytes[9], bytes[10]),
        humidity: be32(bytes[12], bytes[13], bytes[15], bytes[16]),
    }
}

/// The two groups that carry a 32-bit value: its upper word, then its lower.
pub open spec fn value_groups(bits: u32) -> Seq<u8> {
    group_of((bits / 65536) as u16) + group_of((bits % 65536) as u16)
}

/// The response that carries the given measurement.
pub open spec fn measurement_frame(data: SensorData) -> Seq<u8> {
    value_groups(data.co2) + value_groups(data.temperature) + value_groups(data.humidity)
}

impl Command {
    /// The register address that selects the operation.
    pub open spec fn spec_opcode(self) -> u16 {
        match self {
            Command::ReadFirmwareVersion => 0xd100,
            Command::StartContinuousMeasurement(_) => 0x0010,
            Command::DataReady => 0x0202,
            Command::ReadMeasurement => 0x0300,
        }
    }

    /// The argument word, for the one operation that has one.
    pub open spec fn spec_argument(self) -> Option<u16> {
        match self {
            Command::StartContinuousMeasurement(pressure) => Some(pressure),
            _ => None,
        }
    }

    /// Number of bytes the sensor answers with.
    pub open spec fn spec_response_len(self) -> usize {
        match self {
            Command::ReadFirmwareVersion => 2,
            Command::StartContinuousMeasurement(_) => 0,
            Command::DataReady => 3,
            Command::ReadMeasurement => 18,
        }
    }

    /// The bytes of the command frame: the opcode, high byte first, then the
    /// argument group if there is an argument. The checksum covers the argument
    /// bytes and never the opcode.
    pub open spec fn wire(self) -> Seq<u8> {
        match self.spec_argument() {
            Some(argument) => be_bytes(self.spec_opcode()) + group_of(argument),
            None => be_bytes(self.spec_opcode()),
        }
    }

    /// Returns the register address that selects the operation.
    #[verifier::when_used_as_spec(spec_opcode)]
    pub fn opcode(self) -> (code: u16)
        ensures
            code == self.spec_opcode(),
    {
        match self {
            Command::ReadFirmwareVersion => 0xd100,
            Command::StartContinuousMeasurement(_) => 0x0010,
            Command::DataReady => 0x0202,
            Command::ReadMeasurement => 0x0300,
        }
    }

    /// Returns the argument word, if the operation has one.
    #[verifier::when_used_as_spec(spec_argument)]
    pub fn argument(self) -> (arg: Option<u16>)
        ensures
            arg == self.spec_argument(),
    {
        match self {
            Command::StartContinuousMeasurement(pressure) => Some(pressure),
            _ => None,
        }
    }

    /// Returns the number of bytes to read back after writing the frame.
    #[verifier::when_used_as_spec(spec_response_len)]
    pub fn response_len(self) -> (len: usize)
        ensures
            len == self.spec_response_len(),
    {
        match self {
            Command::ReadFirmwareVersion => 2,
            Command::StartContinuousMeasurement(_) => 0,
            Command::DataReady => 3,
            Command::ReadMeasurement => 18,
        }
    }

    /// Builds the command frame to write to the sensor.
    pub fn encode(self) -> (frame: Vec<u8>)
        ensures
            frame@ == self.wire(),
    {
        let code: u16 = self.opcode();
        let mut frame: Vec<u8> = Vec::new();
        frame.push((code / 256) as u8);
        frame.push((code % 256) as u8);
        match self.argument() {
            Some(argument) => {
                let group = encode_word(argument);
                frame.push(group[0]);
                frame.push(group[1]);
                frame.push(group[2]);
                assert(frame@ =~= be_bytes(code) + group_of(argument));
            },
            None => {
                assert(frame@ =~= be_bytes(code));
            },
        }
        frame
    }
}

/// Packs a word into its group.
pub fn encode_word(word: u16) -> (group: [u8; 3])
    ensures
        group@ == group_of(word),
{
    let data: [u8; 2] = [(word / 256) as u8, (word % 256) as u8];
    assert(data@ =~= be_bytes(word));
    let crc: u8 = checksum(data.as_slice());
    let group: [u8; 3] = [data[0], data[1], crc];
    assert(group@ =~= group_of(word));
    group
}

/// Unpacks a group: checks its checksum and returns the word it carries.
pub fn decode_group(group: &[u8]) -> (result: Result<u16, Error>)
    ensures
        group@.len() != GROUP_LEN ==> result == Err::<u16, Error>(Error::UnexpectedResponseLength),
        group@.len() == GROUP_LEN && !group_is_valid(group@) ==> result == Err::<u16, Error>(
            Error::ChecksumMismatch,
        ),
        group_is_valid(group@) ==> result == Ok::<u16, Error>(group_word(group@)),
{
    if group.len() != GROUP_LEN {
        return Err(Error::UnexpectedResponseLength);
    }
    let crc: u8 = checksum(slice_subrange(group, 0, 2));
    if crc != group[2] {
        return Err(Error::ChecksumMismatch);
    }
    Ok(group[0] as u16 * 256 + group[1] as u16)
}

/// Splits a response of `count` groups into its words, checking every
/// checksum on the way.
///
/// A response of any other length is an `UnexpectedResponseLength`. In a
/// response of the right length, a group with a wrong checksum is a
/// `ChecksumMismatch`.
pub fn decode_words(response: &[u8], count: usize) -> (result: Result<Vec<u16>, Error>)
    ensures
        match result {
            Ok(words) => {
                &&& holds_groups(response@, count as nat)
                &&& all_groups_valid(response@)
                &&& words@ == words_of(response@)
            },
            Err(e) => if holds_groups(response@, count as nat) {
                e == Error::ChecksumMismatch && !all_groups_valid(response@)
            } else {
                e == Error::UnexpectedResponseLength
            },
        },
{
    if response.len() % GROUP_LEN != 0 || response.len() / GROUP_LEN != count {
        return Err(Error::UnexpectedResponseLength);
    }
    let mut words: Vec<u16> = Vec::new();
    let mut i: usize = 0;
    while i < count
        invariant
            response@.len() == 3 * count,
            3 * count <= usize::MAX,
            i <= count,
            words@.len() == i,
            forall|j: int| 0 <= j < i ==> group_is_valid(#[trigger] group_at(response@, j)),
            forall|j: int| 0 <= j < i ==> words@[j] == group_word(group_at(response@, j)),
        decreases count - i,
    {
        let group = slice_subrange(response, 3 * i, 3 * i + 3);
        assert(group@ == group_at(response@, i as int));
        match decode_group(group) {
            Ok(word) => {
                words.push(word);
            },
            Err(e) => {
                return Err(e);
            },
        }
        i += 1;
    }
    assert(words@ =~= words_of(response@));
    Ok(words)
}

/// Decodes the answer to `Command::ReadFirmwareVersion`: two bare bytes, the
/// major and the minor version.
pub fn decode_firmware_version(response: &[u8]) -> (result: Result<[u8; 2], Error>)
    ensures
        match result {
            Ok(version) => response@.len() == 2 && version@ == response@,
            Err(e) => response@.len() != 2 && e == Error::UnexpectedResponseLength,
        },
{
    if response.len() != 2 {
        return Err(Error::UnexpectedResponseLength);
    }
    let version: [u8; 2] = [response[0], response[1]];
    assert(version@ =~= response@);
    Ok(version)
}

/// Decodes the answer to `Command::DataReady`: one group whose word is 1 when
/// a measurement is waiting. Any other word means that none is. A wrong
/// checksum is an error and never reads as "not ready".
pub fn decode_data_ready(response: &[u8]) -> (result: Result<bool, Error>)
    ensures
        response@.len() != 3 ==> result == Err::<bool, Error>(Error::UnexpectedResponseLength),
        response@.len() == 3 && !group_is_valid(response@) ==> result == Err::<bool, Error>(
            Error::ChecksumMismatch,
        ),
        group_is_valid(response@) ==> result == Ok::<bool, Error>(group_word(response@) == 1),
{
    match decode_group(response) {
        Ok(word) => Ok(word == 1),
        Err(e) => Err(e),
    }
}

/// Decodes the answer to `Command::ReadMeasurement`: six groups, two for each
/// of CO2 concentration, temperature and humidity. The four data bytes of each
/// pair, in the order received, are the big-endian bit pattern of the value.
/// Every one of the six checksums must be right.
pub fn decode_measurement(response: &[u8]) -> (result: Result<SensorData, Error>)
    ensures
        response@.len() != 18 ==> result == Err::<SensorData, Error>(
            Error::UnexpectedResponseLength,
        ),
        response@.len() == 18 && !all_groups_valid(response@) ==> result == Err::<
            SensorData,
            Error,
        >(Error::ChecksumMismatch),
        response@.len() == 18 && all_groups_valid(response@) ==> result == Ok::<SensorData, Error>(
            measurement_of(response@),
        ),
{
    match decode_words(response, 6) {
        Ok(words) => {
            proof {
                let bytes = response@;
                assert forall|i: int| 0 <= i < 6 implies #[trigger] words@[i] == word_of(
                    bytes[3 * i],
                    bytes[3 * i + 1],
                ) by {
                    assert(group_at(bytes, i)[0] == bytes[3 * i]);
                    assert(group_at(bytes, i)[1] == bytes[3 * i + 1]);
                }
            }
            Ok(
                SensorData {
                    co2: join_words(words[0], words[1]),
                    temperature: join_words(words[2], words[3]),
                    humidity: join_words(words[4], words[5]),
                },
            )
        },
        Err(e) => Err(e),
    }
}

/// Joins two words into a 32-bit value, `high` first.
fn join_words(high: u16, low: u16) -> (bits: u32)
    ensures
        bits == high * 65536 + low,
{
    high as u32 * 65536 + low as u32
}

/// A word survives the trip through its group: the group that `encode_word`
/// builds passes the checksum test and carries the same word.
pub proof fn lemma_group_round_trip(word: u16)
    ensures
        group_is_valid(group_of(word)),
        group_word(group_of(word)) == word,
{
    assert(group_of(word).subrange(0, 2) =~= be_bytes(word));
}

/// Whatever three bit patterns the sensor sends, the response that carries
/// them passes all six checksum tests and decodes to exactly those patterns.
pub proof fn lemma_measurement_round_trip(data: SensorData)
    ensures
        measurement_frame(data).len() == 18,
        all_groups_valid(measurement_frame(data)),
        measurement_of(measurement_frame(data)) == data,
{
    let frame = measurement_frame(data);
    let words = seq![
        (data.co2 / 65536) as u16,
        (data.co2 % 65536) as u16,
        (data.temperature / 65536) as u16,
        (data.temperature % 65536) as u16,
        (data.humidity / 65536) as u16,
        (data.humidity % 65536) as u16,
    ];
    assert forall|i: int| 0 <= i < 6 implies group_at(frame, i) == group_of(#[trigger] words[i]) by {
        assert(group_at(frame, i) =~= group_of(words[i]));
    }
    assert forall|i: int| 0 <= i < frame.len() / 3 implies group_is_valid(
        #[trigger] group_at(frame, i),
    ) by {
        assert(group_at(frame, i) == group_of(words[i]));
        lemma_group_round_trip(words[i]);
    }
}

/// For every pressure, the frame that starts continuous measurement ends in a
/// group that passes the checksum test and carries that pressure: bytes 2 to 4
/// are the pressure, high byte first, and the checksum of those two bytes.
pub proof fn lemma_start_command_checksum(pressure: u16)
    ensures
        Command::StartContinuousMeasurement(pressure).wire().len() == 5,
        Command::StartContinuousMeasurement(pressure).wire().subrange(0, 2) == seq![0x00u8, 0x10u8],
        Command::StartContinuousMeasurement(pressure).wire().subrange(2, 5) == group_of(pressure),
        group_is_valid(Command::StartContinuousMeasurement(pressure).wire().subrange(2, 5)),
        group_word(Command::StartContinuousMeasurement(pressure).wire().subrange(2, 5)) == pressure,
{
    let frame = Command::StartContinuousMeasurement(pressure).wire();
    assert(frame.subrange(2, 5) =~= group_of(pressure));
    assert(frame.subrange(0, 2) =~= seq![0x00u8, 0x10u8]);
    lemma_group_round_trip(pressure);
}

} // verus!
