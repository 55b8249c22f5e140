use oliviabot::cogs::gadgets::{
    no_match_message, or_no_match, parse_rgb, select, ColorError, Distro,
};

fn distro(name: &str, color_rgb: &str) -> Distro {
    Distro {
        distro: name.to_string(),
        logo: format!("<{name}>"),
        color_index: "34".to_string(),
        color_rgb: color_rgb.to_string(),
    }
}

#[test]
fn nothing_to_select_gives_the_message() {
    let none = Vec::new();
    assert_eq!(select(&none, &None, false), Err("No distros found.".to_string()));
    assert_eq!(select(&none, &None, true), Err("No distros found.".to_string()));
    assert_eq!(
        select(&none, &Some("arch".to_string()), false),
        Err("No distros found matching query 'arch'".to_string())
    );
    assert_eq!(
        select(&none, &Some("arch".to_string()), true),
        Err("No mobile-width distro icons found matching query 'arch'".to_string())
    );
}

#[test]
fn the_only_choice_is_selected() {
    let choices = vec![distro("Arch Linux", "1793D1")];
    for _ in 0..20 {
        assert_eq!(select(&choices, &None, false), Ok(&choices[0]));
    }
}

#[test]
fn a_selection_is_one_of_the_choices() {
    let choices =
        vec![distro("Arch Linux", "1793D1"), distro("Debian", "D70A53"), distro("Void", "478061")];
    let mut seen = [false; 3];
    for _ in 0..400 {
        let selected = select(&choices, &Some("linux".to_string()), true).expect("a choice");
        let at = choices.iter().position(|choice| choice == selected).expect("one of them");
        seen[at] = true;
    }
    assert_eq!(seen, [true, true, true]);
}

#[test]
fn no_match_message_names_the_query() {
    assert_eq!(no_match_message(&None, false), "No distros found.");
    assert_eq!(
        no_match_message(&Some("it's".to_string()), false),
        "No distros found matching query 'it's'"
    );
    assert_eq!(
        no_match_message(&Some(String::new()), true),
        "No mobile-width distro icons found matching query ''"
    );
}

#[test]
fn colour_is_read_from_six_digits() {
    assert_eq!(parse_rgb("1793D1"), Ok((0x17, 0x93, 0xD1)));
    assert_eq!(parse_rgb("000000"), Ok((0, 0, 0)));
    assert_eq!(parse_rgb("ffffff"), Ok((255, 255, 255)));
    assert_eq!(parse_rgb("FfAa09"), Ok((255, 170, 9)));
    assert_eq!(parse_rgb("d70a53 and more"), Ok((0xD7, 0x0A, 0x53)));
    assert_eq!(parse_rgb("a1b2c3\u{e9}"), Ok((0xA1, 0xB2, 0xC3)));
}

#[test]
fn colour_with_a_bad_digit_is_refused() {
    assert_eq!(parse_rgb("g00000"), Err(ColorError::InvalidDigit));
    assert_eq!(parse_rgb("00 000"), Err(ColorError::InvalidDigit));
    assert_eq!(parse_rgb("0000-1"), Err(ColorError::InvalidDigit));
    assert_eq!(parse_rgb("#1793D"), Err(ColorError::InvalidDigit));
    assert_eq!(parse_rgb("\u{e9}0000"), Err(ColorError::InvalidDigit));
    assert_eq!(parse_rgb("zz"), Err(ColorError::InvalidDigit));
    assert_eq!(parse_rgb("00zz"), Err(ColorError::InvalidDigit));
}

#[test]
fn colour_that_ends_early_is_refused() {
    assert_eq!(parse_rgb(""), Err(ColorError::TooShort));
    assert_eq!(parse_rgb("1"), Err(ColorError::TooShort));
    assert_eq!(parse_rgb("17"), Err(ColorError::TooShort));
    assert_eq!(parse_rgb("1793D"), Err(ColorError::TooShort));
}

#[test]
fn colour_parts_are_read_as_the_standard_parser_reads_them() {
    for high in 0u8..128 {
        for low in 0u8..128 {
            let pair = String::from_utf8(vec![high, low]).expect("two ASCII characters");
            let expected = u8::from_str_radix(&pair, 16).ok();
            for (text, part) in [
                (format!("{pair}0000"), 0),
                (format!("00{pair}00"), 1),
                (format!("0000{pair}"), 2),
            ] {
                let read = parse_rgb(&text).ok().map(|(r, g, b)| [r, g, b][part]);
                assert_eq!(read, expected, "{:?}", text);
            }
        }
    }
    assert_eq!(parse_rgb("+f+0+9"), Ok((15, 0, 9)));
}

#[test]
fn colour_errors_say_what_is_wrong() {
    let parsed = u8::from_str_radix("zz", 16).expect_err("no number");
    assert_eq!(ColorError::InvalidDigit.message(), parsed.to_string());
    assert_eq!(ColorError::TooShort.message(), "colour has fewer than six digits");
}

#[test]
fn description_shows_logo_user_and_system() {
    let arch = Distro {
        distro: "Arch Linux".to_string(),
        logo: "/\\\n/__\\".to_string(),
        color_index: "36".to_string(),
        color_rgb: "1793D1".to_string(),
    };
    let accent = "\x1b[36m";
    let normal = "\x1b[0m";
    assert_eq!(
        arch.description("olivia", "general"),
        format!(
            "```ansi\n\
            {logo}\n\
            ```\n\
            ```ansi\n\
            {accent}{}@{}{normal}\n\
            {accent}OS:{normal} {distro}\n\
            {accent}Host:{normal} Discord\n\
            ```",
            "olivia",
            "general",
            logo = arch.logo,
            distro = arch.distro,
        )
    );
    assert_eq!(
        arch.description("", ""),
        "```ansi\n/\\\n/__\\\n```\n```ansi\n\x1b[36m@\x1b[0m\n\x1b[36mOS:\x1b[0m Arch Linux\n\
         \x1b[36mHost:\x1b[0m Discord\n```"
    );
}

#[test]
fn what_was_picked_is_taken() {
    let arch = distro("Arch Linux", "1793D1");
    assert_eq!(or_no_match(Some(&arch), &Some("arch".to_string()), true), Ok(&arch));
    assert_eq!(
        or_no_match(None, &Some("arch".to_string()), true),
        Err("No mobile-width distro icons found matching query 'arch'".to_string())
    );
    assert_eq!(or_no_match(None, &None, false), Err("No distros found.".to_string()));
}
