use bp_seals::{CloseMethod, ExplicitSeal, ParseError, Txid};

fn all_chars() -> impl Iterator<Item = char> {
    (0u32..=0x10ffff).filter_map(char::from_u32)
}

#[test]
fn only_ascii_letters_fold_to_the_letters_of_a_method_name() {
    for c in all_chars() {
        let lower: String = c.to_lowercase().collect();
        if lower.chars().all(|x| "opret1sa".contains(x)) {
            assert!(c.is_ascii());
            assert_eq!(lower, c.to_ascii_lowercase().to_string());
        }
    }
}

#[test]
fn method_parsing_of_every_single_character_change() {
    for name in ["opret1st", "tapret1st"] {
        for c in all_chars().filter(|c| !c.is_ascii() || c.is_ascii_alphanumeric()) {
            let mut text = String::from(c);
            text.push_str(&name[1..]);
            let expected = match text.to_lowercase().as_str() {
                "opret1st" => Some(CloseMethod::OpretFirst),
                "tapret1st" => Some(CloseMethod::TapretFirst),
                _ => None,
            };
            assert_eq!(CloseMethod::from_str(&text).ok(), expected);
        }
    }
}

#[test]
fn every_single_character_as_output_number() {
    let mut text = String::from("opret1st:~:");
    for c in all_chars() {
        text.truncate(11);
        text.push(c);
        let expected = if c == ':' || c == '#' {
            Err(ParseError::WrongStructure)
        } else {
            match text[11..].parse::<u32>() {
                Ok(vout) => Ok(ExplicitSeal::with(CloseMethod::OpretFirst, None, vout)),
                Err(_) => Err(ParseError::WrongVout),
            }
        };
        assert_eq!(ExplicitSeal::from_str(&text), expected);
    }
}

#[test]
fn every_single_character_as_last_hex_digit() {
    let mut text = "00".repeat(32);
    for c in all_chars() {
        text.truncate(63);
        text.push(c);
        let expected = c.to_digit(16).filter(|_| c.is_ascii()).map(|digit| {
            let mut bytes = [0u8; 32];
            bytes[0] = digit as u8;
            Txid::from_inner(bytes)
        });
        assert_eq!(Txid::from_hex(&text), expected);
    }
}

#[test]
fn every_byte_in_every_position_of_a_txid() {
    for position in 0..32 {
        for value in 0u8..=255 {
            let mut bytes = [0u8; 32];
            bytes[position] = value;
            let txid = Txid::from_inner(bytes);
            let hex = txid.to_hex();
            let at = 2 * (31 - position);
            let mut expected = "00".repeat(32);
            expected.replace_range(at..at + 2, &format!("{:02x}", value));
            assert_eq!(hex, expected);
            assert_eq!(Txid::from_hex(&hex), Some(txid));
            assert_eq!(Txid::from_hex(&hex.to_uppercase()), Some(txid));
        }
    }
}
