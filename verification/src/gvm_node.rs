//! What a GVM light is sent over Bluetooth and what it answers, as bytes.
//!
//! A command frame is hex text: a fixed header, the command's text, the
//! CRC-16/XMODEM of everything before it (as bytes) and `FF`.  The text is
//! turned into the bytes that are written to the light two characters at a
//! time.
use vstd::prelude::*;
use itertools::Itertools;
use crate::hex_text::{
    hex_decode, hex_value, is_hex_digit, is_hex_text, hex_digit_value, upper_hex, upper_hex_bytes,
    upper_hex_digit, lemma_upper_hex_concat,
};
use crate::node_command::{GvmNodeCommand, NodeCommandEncoder, command_code, command_value};
use crate::node_status::{GvmNodeStatus, PowerState, Brightness, Temperature, Hue, Saturation, RGB};

verus! {

/// CRC-16/XMODEM of `data`, two bytes, most significant first.
pub uninterp spec fn crc16_xmodem(data: Seq<u8>) -> Seq<u8>;

/// `crc_any::CRC::crc16xmodem`, `digest` and `get_crc_vec_be`: a fresh
/// CRC-16/XMODEM state fed with `data` gives its checksum as two bytes, most
/// significant first.  Which two bytes is left to the name `crc16_xmodem`.
#[verifier::external_body]
pub(crate) fn crc16_xmodem_be(data: &[u8]) -> (res: Vec<u8>)
    ensures
        res@ == crc16_xmodem(data@),
        res@.len() == 2,
{
    let mut crc16 = crc_any::CRC::crc16xmodem();
    crc16.digest(data);
    crc16.get_crc_vec_be()
}

/// `Itertools::tuples` on bytes: consecutive pairs, a last odd byte dropped.
#[verifier::external_body]
pub(crate) fn byte_pairs(data: &[u8]) -> (res: Vec<(u8, u8)>)
    ensures
        res@.len() == data@.len() / 2,
        forall|i: int| 0 <= i < res@.len() ==> #[trigger] res@[i] == (data@[2 * i], data@[2 * i + 1]),
{
    data.iter().copied().tuples().collect()
}

/// The header bytes of every frame: the `4C5409` preamble, device id 0,
/// device type `30` and `5700`.
pub open spec fn frame_header() -> Seq<u8> {
    seq![0x4Cu8, 0x54u8, 0x09u8, 0x00u8, 0x30u8, 0x57u8, 0x00u8]
}

/// The bytes that a command stands for: header, code, 1 and parameter.
pub open spec fn command_payload(cmd: GvmNodeCommand) -> Seq<u8> {
    frame_header() + seq![command_code(cmd), 1u8, command_value(cmd)]
}

/// `FF`, the text that ends every frame.
pub open spec fn frame_end() -> Seq<u8> {
    seq![0x46u8, 0x46u8]
}

/// A frame text from its body text and the checksum bytes of that body.
pub open spec fn framed_text(body: Seq<u8>, crc: Seq<u8>) -> Seq<u8> {
    body + upper_hex(crc) + frame_end()
}

/// The frame text that sends `cmd`.
pub open spec fn command_frame_text(cmd: GvmNodeCommand) -> Seq<u8> {
    framed_text(upper_hex(command_payload(cmd)), crc16_xmodem(command_payload(cmd)))
}

/// The nibble that `format_msg` reads from one character: digits and
/// upper-case letters map to their hex value.
pub open spec fn ascii_nibble(c: u8) -> u8 {
    if c < 59 {
        (c - 48) as u8
    } else {
        (c - 55) as u8
    }
}

/// The byte `format_msg` makes of a pair of characters.
pub open spec fn ascii_pair_byte(hi: u8, lo: u8) -> u8 {
    ((ascii_nibble(hi) << 4u8) | ascii_nibble(lo)) as u8
}

/// The bytes `format_msg` makes of a text.
pub open spec fn formatted(text: Seq<u8>) -> Seq<u8> {
    Seq::new(text.len() / 2, |i: int| ascii_pair_byte(text[2 * i], text[2 * i + 1]))
}

/// No character that `format_msg` reads lies below `'0'`.
pub open spec fn format_msg_accepts(text: Seq<u8>) -> bool {
    forall|i: int| 0 <= i < 2 * (text.len() / 2) ==> #[trigger] text[i] >= 48
}

/// Turns ASCII hex text into raw bytes, two characters per byte; a last odd
/// character is ignored.
pub fn format_msg(cmd: &[u8]) -> (res: Vec<u8>)
    requires
        format_msg_accepts(cmd@),
    ensures
        res@ == formatted(cmd@),
{
    let pairs = byte_pairs(cmd);
    let mut msg_formatted: Vec<u8> = Vec::new();
    let n = pairs.len();
    for k in 0..n
        invariant
            n == pairs@.len(),
            pairs@.len() == cmd@.len() / 2,
            forall|i: int| 0 <= i < pairs@.len() ==> #[trigger] pairs@[i] == (cmd@[2 * i], cmd@[2 * i + 1]),
            format_msg_accepts(cmd@),
            msg_formatted@ =~= formatted(cmd@).subrange(0, k as int),
    {
        let (upper, lower) = pairs[k];
        assert(pairs@[k as int] == (cmd@[2 * k], cmd@[2 * k + 1]));
        assert(upper >= 48 && lower >= 48);
        let up: u8 = if upper < 59 { upper - 48 } else { upper - 55 };
        let lo: u8 = if lower < 59 { lower - 48 } else { lower - 55 };
        msg_formatted.push((up << 4) | lo);
    }
    msg_formatted
}

/// Each digit that `upper_hex` writes is a hex digit with the nibble's value,
/// and `format_msg` reads the same value from it.
proof fn lemma_upper_hex_digit(n: int)
    requires
        0 <= n < 16,
    ensures
        is_hex_digit(upper_hex_digit(n)),
        hex_digit_value(upper_hex_digit(n)) == n,
        upper_hex_digit(n) >= 48,
        ascii_nibble(upper_hex_digit(n)) == n,
{
}

/// Upper-case hex text is hex text, and it spells the bytes it was made of.
pub proof fn lemma_upper_hex_decodes(x: Seq<u8>)
    ensures
        is_hex_text(upper_hex(x)),
        hex_value(upper_hex(x)) == x,
        format_msg_accepts(upper_hex(x)),
        formatted(upper_hex(x)) == x,
{
    let t = upper_hex(x);
    assert forall|i: int| 0 <= i < t.len() implies is_hex_digit(#[trigger] t[i]) && t[i] >= 48 by {
        if i % 2 == 0 {
            lemma_upper_hex_digit(x[i / 2] as int / 16);
        } else {
            lemma_upper_hex_digit(x[i / 2] as int % 16);
        }
    }
    assert forall|i: int| 0 <= i < x.len() implies #[trigger] hex_value(t)[i] == x[i] && formatted(t)[i] == x[i] by {
        assert((2 * i) / 2 == i);
        assert((2 * i + 1) / 2 == i);
        let hi = x[i] as int / 16;
        let lo = x[i] as int % 16;
        lemma_upper_hex_digit(hi);
        lemma_upper_hex_digit(lo);
        assert(t[2 * i] == upper_hex_digit(hi));
        assert(t[2 * i + 1] == upper_hex_digit(lo));
        let h = hi as u8;
        let l = lo as u8;
        assert(h < 16 && l < 16);
        assert(((h << 4u8) | l) as u8 == h * 16 + l) by (bit_vector)
            requires
                h < 16,
                l < 16,
        ;
    }
    assert(hex_value(t) =~= x);
    assert(formatted(t) =~= x);
}

/// The text of the frame header.
pub(crate) fn header_text() -> (res: Vec<u8>)
    ensures
        res@ == upper_hex(frame_header()),
{
    let header = [0x4Cu8, 0x54, 0x09, 0x00, 0x30, 0x57, 0x00];
    let res = upper_hex_bytes(&header);
    assert(header@ =~= frame_header());
    res
}

/// Appends the checksum text and `FF` to a frame body.
pub fn frame_with_checksum(body: &[u8], crc: &[u8]) -> (res: Vec<u8>)
    ensures
        res@ == framed_text(body@, crc@),
{
    let mut buf: Vec<u8> = Vec::new();
    buf.extend_from_slice(body);
    let mut crc_str = upper_hex_bytes(crc);
    buf.append(&mut crc_str);
    buf.push(0x46);
    buf.push(0x46);
    assert(buf@ =~= framed_text(body@, crc@));
    buf
}

/// The hex text of the frame that sends `cmd`: header, command text,
/// checksum, `FF`.
pub fn command_frame(cmd: GvmNodeCommand) -> (res: Vec<u8>)
    ensures
        res@ == command_frame_text(cmd),
        crc16_xmodem(command_payload(cmd)).len() == 2,
        res@.len() == 26,
{
    let mut buf = header_text();
    let mut text = cmd.encode();
    buf.append(&mut text);
    proof {
        lemma_upper_hex_concat(frame_header(), seq![command_code(cmd), 1u8, command_value(cmd)]);
        assert(buf@ == upper_hex(command_payload(cmd)));
        lemma_upper_hex_decodes(command_payload(cmd));
    }
    let buf_decoded = match hex_decode(buf.as_slice()) {
        Ok(bytes) => bytes,
        Err(_) => {
            assert(false);
            return Vec::new();
        },
    };
    let crc = crc16_xmodem_be(buf_decoded.as_slice());
    frame_with_checksum(buf.as_slice(), crc.as_slice())
}

/// A frame text is hex: written to a light it becomes the body's bytes, the
/// checksum bytes and `0xFF`.
pub proof fn lemma_framed_text_decodes(body: Seq<u8>, crc: Seq<u8>)
    ensures
        is_hex_text(framed_text(upper_hex(body), crc)),
        format_msg_accepts(framed_text(upper_hex(body), crc)),
        formatted(framed_text(upper_hex(body), crc)) == body + crc + seq![0xFFu8],
        hex_value(framed_text(upper_hex(body), crc)) == body + crc + seq![0xFFu8],
{
    lemma_upper_hex_concat(body, crc);
    lemma_upper_hex_concat(body + crc, seq![0xFFu8]);
    assert(frame_end() =~= upper_hex(seq![0xFFu8]));
    assert(framed_text(upper_hex(body), crc) =~= upper_hex(body + crc + seq![0xFFu8]));
    lemma_upper_hex_decodes(body + crc + seq![0xFFu8]);
}

/// The bytes written to a light to send `cmd`: header, code, 1, parameter,
/// the two checksum bytes of all these, and `0xFF`.
pub fn command_packet(cmd: GvmNodeCommand) -> (res: Vec<u8>)
    ensures
        res@ == command_payload(cmd) + crc16_xmodem(command_payload(cmd)) + seq![0xFFu8],
        crc16_xmodem(command_payload(cmd)).len() == 2,
        res@.len() == 13,
        res@[12] == 0xFFu8,
{
    let text = command_frame(cmd);
    proof {
        lemma_framed_text_decodes(command_payload(cmd), crc16_xmodem(command_payload(cmd)));
    }
    format_msg(text.as_slice())
}

/// The bytes written to a light to ask for its state
/// (`4C5409000053000001009474FF`).
pub fn status_request_packet() -> (res: Vec<u8>)
    ensures
        res@ == seq![0x4Cu8, 0x54u8, 0x09u8, 0x00u8, 0x00u8, 0x53u8, 0x00u8, 0x00u8, 0x01u8, 0x00u8, 0x94u8, 0x74u8, 0xFFu8],
{
    let msg = [
        0x34u8, 0x43, 0x35, 0x34, 0x30, 0x39, 0x30, 0x30, 0x30, 0x30, 0x35, 0x33, 0x30,
        0x30, 0x30, 0x30, 0x30, 0x31, 0x30, 0x30, 0x39, 0x34, 0x37, 0x34, 0x46, 0x46,
    ];
    proof {
        let bytes = seq![0x4Cu8, 0x54u8, 0x09u8, 0x00u8, 0x00u8, 0x53u8, 0x00u8, 0x00u8, 0x01u8, 0x00u8, 0x94u8, 0x74u8, 0xFFu8];
        assert(msg@ =~= upper_hex(bytes));
        lemma_upper_hex_decodes(bytes);
    }
    format_msg(&msg)
}

/// Whether a notification from a light ends the wait for its state: every
/// notification longer than two bytes whose third byte is not `0x0E` is
/// passed over.
pub open spec fn is_state_notification_spec(value: Seq<u8>) -> bool {
    !(value.len() > 2 && value[2] != 0x0E)
}

/// Whether a notification from a light ends the wait for its state.
pub fn is_state_notification(value: &[u8]) -> (res: bool)
    ensures
        res == is_state_notification_spec(value@),
{
    !(value.len() > 2 && value[2] != 0x0E)
}

/// The status a state notification reports: byte 6 is 1 when the light is on,
/// byte 7 the RGB setting, byte 8 the brightness, byte 9 the temperature in
/// hundreds of Kelvin, byte 10 the hue in steps of 5 degrees, byte 11 the
/// saturation.
pub open spec fn notified_status(value: Seq<u8>) -> GvmNodeStatus {
    GvmNodeStatus {
        power_state: PowerState { value: value[6] == 1 },
        brightness: Brightness { value: value[8] },
        temperature: Temperature { value: (value[9] * 100) as u16 },
        hue: Hue { value: (value[10] * 5) as u16 },
        saturation: Saturation { value: value[11] },
        rgb: RGB { value: value[7] },
    }
}

/// Reads the status out of a state notification of at least twelve bytes.
pub fn status_from_notification(value: &[u8]) -> (res: GvmNodeStatus)
    requires
        value@.len() >= 12,
    ensures
        res == notified_status(value@),
{
    GvmNodeStatus {
        power_state: PowerState { value: if value[6] == 1 { true } else { false } },
        brightness: Brightness { value: value[8] },
        temperature: Temperature { value: value[9] as u16 * 100 },
        hue: Hue { value: value[10] as u16 * 5 },
        saturation: Saturation { value: value[11] },
        rgb: RGB { value: value[7] },
    }
}

} // verus!
