use rusty_bot::args::Args;
use rusty_bot::codec::{
    decode_base64, decode_binary, decode_hex, encode_base64, encode_binary, encode_hex, reverse,
    text_of_bytes, CodecError,
};
use rusty_bot::embed::{Color, Requester};
use rusty_bot::tools::{
    base64, binary, decode_text, encode_text, hex, qr, reverse_command, tool_card, Notation,
    ToolError, ToolReply,
};

fn all_bytes() -> Vec<u8> {
    (0..=255u8).collect()
}

#[test]
fn base64_known_values() {
    assert_eq!(encode_base64(b""), "");
    assert_eq!(encode_base64(b"f"), "Zg==");
    assert_eq!(encode_base64(b"fo"), "Zm8=");
    assert_eq!(encode_base64(b"foo"), "Zm9v");
    assert_eq!(encode_base64(b"Hello, world!"), "SGVsbG8sIHdvcmxkIQ==");
    assert_eq!(encode_base64(&[0xfb, 0xff]), "+/8=");
    assert_eq!(decode_base64("SGVsbG8sIHdvcmxkIQ=="), Ok(b"Hello, world!".to_vec()));
    assert_eq!(decode_base64(""), Ok(vec![]));
}

#[test]
fn base64_round_trip() {
    let bytes = all_bytes();
    for len in 0..bytes.len() {
        let data = &bytes[..len];
        assert_eq!(decode_base64(&encode_base64(data)), Ok(data.to_vec()));
    }
    let tail = &bytes[200..];
    assert_eq!(decode_base64(&encode_base64(tail)), Ok(tail.to_vec()));
}

#[test]
fn base64_rejects_malformed_input() {
    assert_eq!(decode_base64("not base64!"), Err(CodecError::Base64));
    assert_eq!(decode_base64("Zg="), Err(CodecError::Base64));
    assert_eq!(decode_base64("Z"), Err(CodecError::Base64));
    assert_eq!(decode_base64("Zm9v "), Err(CodecError::Base64));
    assert_eq!(decode_base64("Zh=="), Err(CodecError::Base64));
}

#[test]
fn hex_known_values() {
    assert_eq!(encode_hex(b""), "");
    assert_eq!(encode_hex(b"Hello world!"), "48656c6c6f20776f726c6421");
    assert_eq!(encode_hex(&[1, 2, 3, 15, 16, 255]), "0102030f10ff");
    assert_eq!(decode_hex("48656c6c6f20776f726c6421"), Ok(b"Hello world!".to_vec()));
    assert_eq!(decode_hex("F9b4Ca"), Ok(vec![0xf9, 0xb4, 0xca]));
    assert_eq!(decode_hex(""), Ok(vec![]));
}

#[test]
fn hex_round_trip() {
    let bytes = all_bytes();
    assert_eq!(decode_hex(&encode_hex(&bytes)), Ok(bytes.clone()));
    for b in bytes {
        assert_eq!(decode_hex(&encode_hex(&[b])), Ok(vec![b]));
    }
}

#[test]
fn hex_rejects_malformed_input() {
    assert_eq!(decode_hex("123"), Err(CodecError::Hex));
    assert_eq!(decode_hex("foo"), Err(CodecError::Hex));
    assert_eq!(decode_hex("zz"), Err(CodecError::Hex));
    assert_eq!(decode_hex("12 34"), Err(CodecError::Hex));
    assert_eq!(decode_hex("\u{e9}"), Err(CodecError::Hex));
    assert_eq!(decode_hex("a\u{e9}"), Err(CodecError::Hex));
}

#[test]
fn binary_known_values() {
    assert_eq!(encode_binary(b""), "");
    assert_eq!(encode_binary(b"A"), "01000001");
    assert_eq!(encode_binary(b"Hi"), "01001000 01101001");
    assert_eq!(encode_binary(&[0, 255, 128, 1]), "00000000 11111111 10000000 00000001");
    assert_eq!(decode_binary("01001000 01101001"), Ok(b"Hi".to_vec()));
    assert_eq!(decode_binary("  1\t10 \n 11111111 +101 000000000001 "), Ok(vec![1, 2, 255, 5, 1]));
    assert_eq!(decode_binary(""), Ok(vec![]));
    assert_eq!(decode_binary("   "), Ok(vec![]));
}

#[test]
fn binary_round_trip() {
    let bytes = all_bytes();
    assert_eq!(decode_binary(&encode_binary(&bytes)), Ok(bytes.clone()));
    for b in bytes {
        assert_eq!(decode_binary(&encode_binary(&[b])), Ok(vec![b]));
    }
}

#[test]
fn binary_rejects_malformed_input() {
    assert_eq!(decode_binary("102"), Err(CodecError::Binary));
    assert_eq!(decode_binary("100000000"), Err(CodecError::Binary));
    assert_eq!(decode_binary("01001000 x"), Err(CodecError::Binary));
    assert_eq!(decode_binary("-1"), Err(CodecError::Binary));
    assert_eq!(decode_binary("+"), Err(CodecError::Binary));
}

#[test]
fn reverse_known_values() {
    assert_eq!(reverse(""), "");
    assert_eq!(reverse("a"), "a");
    assert_eq!(reverse("hello"), "olleh");
    assert_eq!(reverse("h\u{e9}llo w\u{f6}rld"), "dlr\u{f6}w oll\u{e9}h");
}

#[test]
fn reverse_twice_is_identity() {
    for text in ["", "a", "ab", "hello world", "  spaced  ", "h\u{e9}llo \u{1f600}!", "abcba"] {
        assert_eq!(reverse(&reverse(text)), text);
    }
}

#[test]
fn lossy_text_replaces_what_is_not_utf8() {
    assert_eq!(text_of_bytes(b"plain"), "plain");
    assert_eq!(text_of_bytes("h\u{e9}".as_bytes()), "h\u{e9}");
    assert_eq!(text_of_bytes(&[b'a', 0xff, b'b']), "a\u{fffd}b");
}

#[test]
fn notations_encode_and_decode_text() {
    assert_eq!(encode_text(Notation::Base64, "h\u{e9}"), "aMOp");
    assert_eq!(encode_text(Notation::Hex, "h\u{e9}"), "68c3a9");
    assert_eq!(encode_text(Notation::Binary, "h\u{e9}"), "01101000 11000011 10101001");
    assert_eq!(decode_text(Notation::Base64, "aMOp"), Ok("h\u{e9}".to_string()));
    assert_eq!(decode_text(Notation::Hex, "68c3a9"), Ok("h\u{e9}".to_string()));
    assert_eq!(
        decode_text(Notation::Binary, "01101000 11000011 10101001"),
        Ok("h\u{e9}".to_string())
    );
    assert_eq!(decode_text(Notation::Binary, "11101001"), Ok("\u{fffd}".to_string()));
    assert_eq!(decode_text(Notation::Hex, "ff"), Ok("\u{fffd}".to_string()));
    assert_eq!(decode_text(Notation::Base64, "?"), Err(ToolError::Base64Decode));
    assert_eq!(decode_text(Notation::Hex, "?"), Err(ToolError::HexDecode));
    assert_eq!(decode_text(Notation::Binary, "?"), Err(ToolError::BinaryDecode));
}

#[test]
fn every_text_round_trips_in_every_notation() {
    let texts = [
        "",
        "a",
        "Hello, world!",
        "\u{20ac}",
        "price: 5\u{20ac} \u{1f600}",
        "h\u{e9}llo  w\u{f6}rld",
        "\u{100}\u{ff}\u{0}x",
    ];
    for notation in [Notation::Base64, Notation::Hex, Notation::Binary] {
        for text in texts {
            let written = encode_text(notation, text);
            assert_eq!(decode_text(notation, &written), Ok(text.to_string()));
        }
    }
    assert_eq!(encode_text(Notation::Binary, "\u{20ac}"), "11100010 10000010 10101100");
}

#[test]
fn coding_commands_round_trip_text_above_latin_one() {
    for (notation, command) in [
        (Notation::Base64, base64 as fn(&mut Args) -> Result<ToolReply, ToolError>),
        (Notation::Hex, hex),
        (Notation::Binary, binary),
    ] {
        let text = "5 \u{20ac} or \u{a3}4";
        let shown = command(&mut Args::new(&format!("encode {}", text))).unwrap();
        let written = encode_text(notation, text);
        assert!(shown.description.ends_with(&format!("{}\n```", written)));
        let back = command(&mut Args::new(&format!("decode {}", written))).unwrap();
        assert_eq!(back.description, format!("Decoded text:\n```{}\n```", text));
    }
}

#[test]
fn base64_command() {
    assert_eq!(
        base64(&mut Args::new("encode Hello, world!")),
        Ok(ToolReply {
            title: "Base64 Encode".to_string(),
            description: "Encoded text:\n```SGVsbG8sIHdvcmxkIQ==\n```".to_string(),
        })
    );
    assert_eq!(
        base64(&mut Args::new("decode   SGVsbG8sIHdvcmxkIQ==")),
        Ok(ToolReply {
            title: "Base64 Decode".to_string(),
            description: "Decoded text:\n```Hello, world!\n```".to_string(),
        })
    );
    assert_eq!(base64(&mut Args::new("decode !!!")), Err(ToolError::Base64Decode));
    assert_eq!(base64(&mut Args::new("")), Err(ToolError::InvalidUsage));
    assert_eq!(base64(&mut Args::new("   ")), Err(ToolError::InvalidUsage));
    assert_eq!(base64(&mut Args::new("Encode x")), Err(ToolError::InvalidOperation));
    assert_eq!(base64(&mut Args::new("recode x")), Err(ToolError::InvalidOperation));
}

#[test]
fn hex_command() {
    assert_eq!(
        hex(&mut Args::new("encode Hello world!")),
        Ok(ToolReply {
            title: "Hex Encode".to_string(),
            description: "Encoded text:\n```48656c6c6f20776f726c6421\n```".to_string(),
        })
    );
    assert_eq!(
        hex(&mut Args::new("decode 48656C6C6F")),
        Ok(ToolReply {
            title: "Hex Decode".to_string(),
            description: "Decoded text:\n```Hello\n```".to_string(),
        })
    );
    assert_eq!(
        hex(&mut Args::new("encode")),
        Ok(ToolReply {
            title: "Hex Encode".to_string(),
            description: "Encoded text:\n```\n```".to_string(),
        })
    );
    assert_eq!(hex(&mut Args::new("decode 4865 6c")), Err(ToolError::HexDecode));
    assert_eq!(hex(&mut Args::new("")), Err(ToolError::InvalidUsage));
    assert_eq!(hex(&mut Args::new("x")), Err(ToolError::InvalidOperation));
}

#[test]
fn binary_command() {
    assert_eq!(
        binary(&mut Args::new("encode Hi")),
        Ok(ToolReply {
            title: "Binary Encode".to_string(),
            description: "Encoded text:\n```\n01001000 01101001\n```".to_string(),
        })
    );
    assert_eq!(
        binary(&mut Args::new("decode 01001000   01101001")),
        Ok(ToolReply {
            title: "Binary Decode".to_string(),
            description: "Decoded text:\n```Hi\n```".to_string(),
        })
    );
    assert_eq!(binary(&mut Args::new("decode 2")), Err(ToolError::BinaryDecode));
    assert_eq!(binary(&mut Args::new("")), Err(ToolError::InvalidUsage));
    assert_eq!(binary(&mut Args::new("both 1")), Err(ToolError::InvalidOperation));
}

#[test]
fn reverse_command_shows_the_text_backwards() {
    assert_eq!(
        reverse_command(&Args::new("  hello world")),
        ToolReply {
            title: "Text Reverse".to_string(),
            description: "Reversed text:\n```\ndlrow olleh\n```".to_string(),
        }
    );
    assert_eq!(
        reverse_command(&Args::new("")).description,
        "Reversed text:\n```\n\n```"
    );
}

#[test]
fn tool_cards_are_signed() {
    let reply = ToolReply { title: "Hex Encode".to_string(), description: "D".to_string() };
    let ann = Requester { name: "ann".to_string(), face: "https://cdn/ann.png".to_string() };
    let card = tool_card(&reply, &ann);
    assert_eq!(card.title, "Hex Encode");
    assert_eq!(card.description, Some("D".to_string()));
    assert_eq!(card.footer, Some("Requested by ann".to_string()));
    assert_eq!(card.footer_icon, Some("https://cdn/ann.png".to_string()));
    assert_eq!(card.color, Color { red: 0x58, green: 0x65, blue: 0xF2 });
    assert!(card.fields.is_empty());
    assert_eq!(card.image, None);
    assert_eq!(card.thumbnail, None);
}

#[test]
fn tool_error_messages() {
    assert_eq!(ToolError::InvalidUsage.message(), "Invalid usage. Use `encode` or `decode`");
    assert_eq!(ToolError::InvalidOperation.message(), "Invalid operation. Use `encode` or `decode`");
    assert_eq!(ToolError::Base64Decode.message(), "Failed to decode Base64 data");
    assert_eq!(ToolError::HexDecode.message(), "Failed to decode hexadecimal data");
    assert_eq!(ToolError::BinaryDecode.message(), "Failed to decode binary data");
    assert_eq!(ToolError::QrBuild.message(), "Failed to generate QR code");
    assert_eq!(ToolError::QrImage.message(), "Failed to generate QR image");
}

#[test]
fn qr_command_draws_a_png() {
    let reply = qr(&Args::new("  https://example.com")).unwrap();
    assert_eq!(reply.file_name, "qrcode.png");
    assert_eq!(reply.caption, "QR Code for: https://example.com");
    assert_eq!(&reply.image[..8], &[0x89, b'P', b'N', b'G', 0x0d, 0x0a, 0x1a, 0x0a]);
}

#[test]
fn qr_pictures_depend_on_the_content_alone() {
    let first = qr(&Args::new("hello")).unwrap();
    let again = qr(&Args::new("   hello")).unwrap();
    let other = qr(&Args::new("hello!")).unwrap();
    assert_eq!(first.image, again.image);
    assert_eq!(first.caption, again.caption);
    assert_ne!(first.image, other.image);
    assert_eq!(other.caption, "QR Code for: hello!");
}

#[test]
fn qr_command_fails_on_too_much_content() {
    let long = "x".repeat(8000);
    assert_eq!(qr(&Args::new(&long)).err(), Some(ToolError::QrBuild));
}
