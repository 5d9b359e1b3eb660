//! The text tools: the commands that encode, decode and reverse text and
//! that draw a QR code.

use vstd::prelude::*;
use vstd::string::*;
use vstd::utf8::{encode_utf8, encode_utf8_decode_utf8, encode_utf8_valid_utf8};
use fast_qr::convert::Builder;
use crate::args::{next_argument, trim_start, Args};
use crate::codec::{
    base64_decoded, base64_text, binary_bytes, binary_text, decode_base64, decode_binary,
    decode_hex, encode_base64, encode_binary, encode_hex, hex_bytes, hex_text, is_hex_text,
    law_base64_round_trip, law_binary_round_trip, law_hex_round_trip, lemma_first_word,
    lemma_notations_start_with_a_digit, plain_text, reverse, text_of_bytes,
};
use crate::text::is_space;
use crate::embed::{blank, card_color, credit, Embed, Requester};
use crate::registry::same_text;

verus! {

/// Why a tool command failed.
#[derive(Clone, Copy, Debug, PartialEq, Eq, Structural)]
pub enum ToolError {
    /// No operation was named.
    InvalidUsage,
    /// The operation is neither `encode` nor `decode`.
    InvalidOperation,
    Base64Decode,
    HexDecode,
    BinaryDecode,
    QrBuild,
    QrImage,
}

/// The notation a coding command works in.
#[derive(Clone, Copy, Debug, PartialEq, Eq, Structural)]
pub enum Notation {
    Base64,
    Hex,
    Binary,
}

/// What a tool command shows: the title and the description of its card.
#[derive(Clone, Debug, PartialEq, Eq)]
pub struct ToolReply {
    pub title: String,
    pub description: String,
}

/// The text of a tool error.
pub open spec fn error_text(e: ToolError) -> Seq<char> {
    match e {
        ToolError::InvalidUsage => "Invalid usage. Use `encode` or `decode`"@,
        ToolError::InvalidOperation => "Invalid operation. Use `encode` or `decode`"@,
        ToolError::Base64Decode => "Failed to decode Base64 data"@,
        ToolError::HexDecode => "Failed to decode hexadecimal data"@,
        ToolError::BinaryDecode => "Failed to decode binary data"@,
        ToolError::QrBuild => "Failed to generate QR code"@,
        ToolError::QrImage => "Failed to generate QR image"@,
    }
}

impl ToolError {
    /// The text of the error.
    pub fn message(&self) -> (r: String)
        ensures
            r@ == error_text(*self),
    {
        match self {
            ToolError::InvalidUsage => String::from_str("Invalid usage. Use `encode` or `decode`"),
            ToolError::InvalidOperation => String::from_str(
                "Invalid operation. Use `encode` or `decode`",
            ),
            ToolError::Base64Decode => String::from_str("Failed to decode Base64 data"),
            ToolError::HexDecode => String::from_str("Failed to decode hexadecimal data"),
            ToolError::BinaryDecode => String::from_str("Failed to decode binary data"),
            ToolError::QrBuild => String::from_str("Failed to generate QR code"),
            ToolError::QrImage => String::from_str("Failed to generate QR image"),
        }
    }
}

/// The card that shows a tool's reply to the one who asked for it.
pub fn tool_card(reply: &ToolReply, requester: &Requester) -> (r: Embed)
    ensures
        r@ == blank(reply.title@, card_color()).described(reply.description@).signed(
            "Requested by "@ + requester.name@,
            requester.face@,
        ),
{
    let mut card = Embed::new(reply.title.as_str());
    card.describe(reply.description.as_str());
    let footer = credit("Requested by ", requester.name.as_str());
    card.sign(footer.as_str(), requester.face.as_str());
    card
}

/// `text` written in `notation`: the notation of its UTF-8 bytes.
pub open spec fn encoded(notation: Notation, text: Seq<char>) -> Seq<char> {
    match notation {
        Notation::Base64 => base64_text(encode_utf8(text)),
        Notation::Hex => hex_text(encode_utf8(text)),
        Notation::Binary => binary_text(encode_utf8(text)),
    }
}

/// The text that `text` stands for in `notation`: the text that the bytes
/// it denotes hold, or the error where it denotes none.
pub open spec fn decoded(notation: Notation, text: Seq<char>) -> Result<Seq<char>, ToolError> {
    match notation {
        Notation::Base64 => match base64_decoded(text) {
            Some(bytes) => Ok(plain_text(bytes)),
            None => Err(ToolError::Base64Decode),
        },
        Notation::Hex => if is_hex_text(text) {
            Ok(plain_text(hex_bytes(text)))
        } else {
            Err(ToolError::HexDecode)
        },
        Notation::Binary => match binary_bytes(text) {
            Some(bytes) => Ok(plain_text(bytes)),
            None => Err(ToolError::BinaryDecode),
        },
    }
}

/// The name of a notation in a card's title.
pub open spec fn notation_name(notation: Notation) -> Seq<char> {
    match notation {
        Notation::Base64 => "Base64"@,
        Notation::Hex => "Hex"@,
        Notation::Binary => "Binary"@,
    }
}

/// What opens the block of encoded text on a card.
pub open spec fn encode_fence(notation: Notation) -> Seq<char> {
    match notation {
        Notation::Binary => "Encoded text:\n```\n"@,
        _ => "Encoded text:\n```"@,
    }
}

/// The card of a coding command for the operation `operation` on `text`.
pub open spec fn coding_card(notation: Notation, operation: Seq<char>, text: Seq<char>) -> Result<
    (Seq<char>, Seq<char>),
    ToolError,
> {
    if operation == "encode"@ {
        Ok(
            (
                notation_name(notation) + " Encode"@,
                encode_fence(notation) + encoded(notation, text) + "\n```"@,
            ),
        )
    } else if operation == "decode"@ {
        match decoded(notation, text) {
            Ok(plain) => Ok(
                (notation_name(notation) + " Decode"@, "Decoded text:\n```"@ + plain + "\n```"@),
            ),
            Err(e) => Err(e),
        }
    } else {
        Err(ToolError::InvalidOperation)
    }
}

/// What a coding command answers to the arguments `remaining`: the first
/// argument is the operation, all that follows it the text.
pub open spec fn coding_reply(notation: Notation, remaining: Seq<char>, quoting: bool) -> Result<
    (Seq<char>, Seq<char>),
    ToolError,
> {
    match next_argument(remaining, quoting) {
        None => Err(ToolError::InvalidUsage),
        Some((operation, after)) => coding_card(notation, operation, trim_start(after)),
    }
}

/// Decoding undoes encoding: what a text is written as in a notation reads
/// back as the text, whatever the text.
pub proof fn law_decoding_undoes_encoding(notation: Notation, plain: Seq<char>)
    ensures
        decoded(notation, encoded(notation, plain)) == Ok::<Seq<char>, ToolError>(plain),
{
    let bytes = encode_utf8(plain);
    encode_utf8_valid_utf8(plain);
    encode_utf8_decode_utf8(plain);
    assert(plain_text(bytes) == plain);
    match notation {
        Notation::Base64 => law_base64_round_trip(bytes),
        Notation::Hex => law_hex_round_trip(bytes),
        Notation::Binary => law_binary_round_trip(bytes),
    }
}

/// The `decode` operation of a coding command, given what its `encode`
/// operation shows for a text, shows that text.
pub proof fn law_coding_round_trip(notation: Notation, plain: Seq<char>)
    ensures
        coding_card(notation, "decode"@, encoded(notation, plain)) == Ok::<
            (Seq<char>, Seq<char>),
            ToolError,
        >((notation_name(notation) + " Decode"@, "Decoded text:\n```"@ + plain + "\n```"@)),
        coding_card(notation, "encode"@, plain) == Ok::<(Seq<char>, Seq<char>), ToolError>(
            (
                notation_name(notation) + " Encode"@,
                encode_fence(notation) + encoded(notation, plain) + "\n```"@,
            ),
        ),
{
    law_decoding_undoes_encoding(notation, plain);
    reveal_strlit("decode");
    reveal_strlit("encode");
    assert("decode"@[0] != "encode"@[0]);
}

/// A coding command asked to `decode` what it shows for `encode` of a text
/// answers with that text: no text is altered on the way.
pub proof fn law_coding_command_round_trip(notation: Notation, plain: Seq<char>)
    ensures
        coding_reply(notation, "decode "@ + encoded(notation, plain), false) == Ok::<
            (Seq<char>, Seq<char>),
            ToolError,
        >((notation_name(notation) + " Decode"@, "Decoded text:\n```"@ + plain + "\n```"@)),
{
    let written = encoded(notation, plain);
    let line = "decode "@ + written;
    let word = "decode"@;
    let rest = seq![' '] + written;
    reveal_strlit("decode ");
    reveal_strlit("decode");
    assert(line =~= word + rest);
    assert(!is_space(line[0]));
    assert(trim_start(line) == line);
    assert forall|i: int| 0 <= i < word.len() implies !is_space(#[trigger] word[i]) by {}
    lemma_first_word(word, rest);
    assert(line.take(6) =~= word);
    assert(line.skip(6) =~= rest);
    assert(rest.skip(1) =~= written);
    lemma_notations_start_with_a_digit(encode_utf8(plain));
    assert(trim_start(written) == written);
    assert(trim_start(rest) == written);
    law_coding_round_trip(notation, plain);
}

/// Writes `text` in `notation`.
pub fn encode_text(notation: Notation, text: &str) -> (r: String)
    ensures
        r@ == encoded(notation, text@),
{
    match notation {
        Notation::Base64 => encode_base64(text.as_bytes()),
        Notation::Hex => encode_hex(text.as_bytes()),
        Notation::Binary => encode_binary(text.as_bytes()),
    }
}

/// Reads `text` in `notation`.
pub fn decode_text(notation: Notation, text: &str) -> (r: Result<String, ToolError>)
    ensures
        match r {
            Ok(plain) => decoded(notation, text@) == Ok::<Seq<char>, ToolError>(plain@),
            Err(e) => decoded(notation, text@) == Err::<Seq<char>, ToolError>(e),
        },
{
    match notation {
        Notation::Base64 => match decode_base64(text) {
            Ok(bytes) => Ok(text_of_bytes(bytes.as_slice())),
            Err(_) => Err(ToolError::Base64Decode),
        },
        Notation::Hex => match decode_hex(text) {
            Ok(bytes) => Ok(text_of_bytes(bytes.as_slice())),
            Err(_) => Err(ToolError::HexDecode),
        },
        Notation::Binary => match decode_binary(text) {
            Ok(bytes) => Ok(text_of_bytes(bytes.as_slice())),
            Err(_) => Err(ToolError::BinaryDecode),
        },
    }
}

/// The name of `notation` in a card's title.
fn notation_title(notation: Notation) -> (r: String)
    ensures
        r@ == notation_name(notation),
{
    match notation {
        Notation::Base64 => String::from_str("Base64"),
        Notation::Hex => String::from_str("Hex"),
        Notation::Binary => String::from_str("Binary"),
    }
}

/// Runs a coding command on its arguments: the first names the operation,
/// `encode` or `decode`, and all that follows it is the text.
pub fn coding_command(notation: Notation, args: &mut Args) -> (r: Result<ToolReply, ToolError>)
    ensures
        match r {
            Ok(card) => coding_reply(notation, old(args).remaining(), old(args).quoting()) == Ok::<
                (Seq<char>, Seq<char>),
                ToolError,
            >((card.title@, card.description@)),
            Err(e) => coding_reply(notation, old(args).remaining(), old(args).quoting()) == Err::<
                (Seq<char>, Seq<char>),
                ToolError,
            >(e),
        },
{
    let operation = match args.single() {
        Some(operation) => operation,
        None => {
            return Err(ToolError::InvalidUsage);
        },
    };
    let text = args.rest();
    if same_text(operation.as_str(), "encode") {
        let mut title = notation_title(notation);
        title.append(" Encode");
        let mut description = match notation {
            Notation::Binary => String::from_str("Encoded text:\n```\n"),
            _ => String::from_str("Encoded text:\n```"),
        };
        let body = encode_text(notation, text.as_str());
        description.append(body.as_str());
        description.append("\n```");
        Ok(ToolReply { title, description })
    } else if same_text(operation.as_str(), "decode") {
        match decode_text(notation, text.as_str()) {
            Ok(plain) => {
                let mut title = notation_title(notation);
                title.append(" Decode");
                let mut description = String::from_str("Decoded text:\n```");
                description.append(plain.as_str());
                description.append("\n```");
                Ok(ToolReply { title, description })
            },
            Err(e) => Err(e),
        }
    } else {
        Err(ToolError::InvalidOperation)
    }
}

/// The `base64` command.
pub fn base64(args: &mut Args) -> (r: Result<ToolReply, ToolError>)
    ensures
        match r {
            Ok(card) => coding_reply(Notation::Base64, old(args).remaining(), old(args).quoting()) == Ok::<
                (Seq<char>, Seq<char>),
                ToolError,
            >((card.title@, card.description@)),
            Err(e) => coding_reply(Notation::Base64, old(args).remaining(), old(args).quoting()) == Err::<
                (Seq<char>, Seq<char>),
                ToolError,
            >(e),
        },
{
    coding_command(Notation::Base64, args)
}

/// The `hex` command.
pub fn hex(args: &mut Args) -> (r: Result<ToolReply, ToolError>)
    ensures
        match r {
            Ok(card) => coding_reply(Notation::Hex, old(args).remaining(), old(args).quoting()) == Ok::<
                (Seq<char>, Seq<char>),
                ToolError,
            >((card.title@, card.description@)),
            Err(e) => coding_reply(Notation::Hex, old(args).remaining(), old(args).quoting()) == Err::<
                (Seq<char>, Seq<char>),
                ToolError,
            >(e),
        },
{
    coding_command(Notation::Hex, args)
}

/// The `binary` command.
pub fn binary(args: &mut Args) -> (r: Result<ToolReply, ToolError>)
    ensures
        match r {
            Ok(card) => coding_reply(Notation::Binary, old(args).remaining(), old(args).quoting()) == Ok::<
                (Seq<char>, Seq<char>),
                ToolError,
            >((card.title@, card.description@)),
            Err(e) => coding_reply(Notation::Binary, old(args).remaining(), old(args).quoting()) == Err::<
                (Seq<char>, Seq<char>),
                ToolError,
            >(e),
        },
{
    coding_command(Notation::Binary, args)
}

/// The `reverse` command: the card that shows all of the arguments backwards.
pub fn reverse_command(args: &Args) -> (r: ToolReply)
    ensures
        r.title@ == "Text Reverse"@,
        r.description@ == "Reversed text:\n```\n"@ + trim_start(args.remaining()).reverse()
            + "\n```"@,
{
    let text = args.rest();
    let reversed = reverse(text.as_str());
    let mut description = String::from_str("Reversed text:\n```\n");
    description.append(reversed.as_str());
    description.append("\n```");
    ToolReply { title: String::from_str("Text Reverse"), description }
}

/// The PNG picture of the QR code for `content`, drawn in rounded squares
/// on `background` and fitted to `width` pixels, or the step that failed:
/// what `fast_qr` builds and draws for these values.
pub uninterp spec fn qr_png(content: Seq<char>, background: Seq<u8>, width: u32) -> Result<
    Seq<u8>,
    ToolError,
>;

/// The least width a QR code is drawn at.
pub const MIN_QR_WIDTH: u32 = 16;

/// The greatest width a QR code is drawn at.
pub const MAX_QR_WIDTH: u32 = 4096;

/// Wraps `fast_qr::QRBuilder::new(..).build()` and
/// `fast_qr::convert::image::ImageBuilder::to_bytes` for rounded squares.
/// The contract names the result and says which step an error came from:
/// `QrBuild` from the builder, `QrImage` from the drawing. The drawing
/// makes a square buffer of about `width` pixels a side and panics where
/// that rounds to none or a row of it exceeds `i32::MAX` bytes; the bounds
/// on `width` keep well clear of both.
#[verifier::external_body]
fn draw_qr(content: &str, background: [u8; 4], width: u32) -> (r: Result<Vec<u8>, ToolError>)
    requires
        MIN_QR_WIDTH <= width <= MAX_QR_WIDTH,
    ensures
        match r {
            Ok(png) => qr_png(content@, background@, width) == Ok::<Seq<u8>, ToolError>(png@),
            Err(e) => qr_png(content@, background@, width) == Err::<Seq<u8>, ToolError>(e),
        },
{
    let code = match fast_qr::QRBuilder::new(content).build() {
        Ok(code) => code,
        Err(_) => return Err(ToolError::QrBuild),
    };
    let mut builder = fast_qr::convert::image::ImageBuilder::default();
    builder.shape(fast_qr::convert::Shape::RoundedSquare).background_color(background);
    match builder.fit_width(width).to_bytes(&code) {
        Ok(png) => Ok(png),
        Err(_) => Err(ToolError::QrImage),
    }
}

/// A picture to send: its bytes, the name of the file, and the text above it.
#[derive(Clone, Debug)]
pub struct QrReply {
    pub image: Vec<u8>,
    pub file_name: String,
    pub caption: String,
}

/// The message that carries the picture `image` of a QR code for `content`.
pub fn qr_reply(content: &str, image: Vec<u8>) -> (r: QrReply)
    ensures
        r.image@ == image@,
        r.file_name@ == "qrcode.png"@,
        r.caption@ == "QR Code for: "@ + content@,
{
    let mut caption = String::from_str("QR Code for: ");
    caption.append(content);
    QrReply { image, file_name: String::from_str("qrcode.png"), caption }
}

/// The background of a QR code: white, opaque.
pub open spec fn qr_background() -> Seq<u8> {
    seq![255u8, 255u8, 255u8, 255u8]
}

/// The width of a QR code in pixels.
pub const QR_WIDTH: u32 = 600;

/// What the `qr` command answers for `content`: the picture that the QR
/// library draws, under the caption for the content, or the step at which
/// the library failed.
pub open spec fn qr_answer(content: Seq<char>) -> Result<(Seq<u8>, Seq<char>, Seq<char>), ToolError> {
    match qr_png(content, qr_background(), QR_WIDTH) {
        Ok(png) => Ok((png, "qrcode.png"@, "QR Code for: "@ + content)),
        Err(e) => Err(e),
    }
}

/// The `qr` command: a QR code for all of the arguments, drawn with rounded
/// squares on white, 600 pixels wide.
pub fn qr(args: &Args) -> (r: Result<QrReply, ToolError>)
    ensures
        match r {
            Ok(reply) => qr_answer(trim_start(args.remaining())) == Ok::<
                (Seq<u8>, Seq<char>, Seq<char>),
                ToolError,
            >((reply.image@, reply.file_name@, reply.caption@)),
            Err(e) => qr_answer(trim_start(args.remaining())) == Err::<
                (Seq<u8>, Seq<char>, Seq<char>),
                ToolError,
            >(e),
        },
{
    let content = args.rest();
    let background: [u8; 4] = [255, 255, 255, 255];
    proof {
        assert(background@ =~= qr_background());
    }
    match draw_qr(content.as_str(), background, QR_WIDTH) {
        Ok(image) => Ok(qr_reply(content.as_str(), image)),
        Err(e) => Err(e),
    }
}

} // verus!
