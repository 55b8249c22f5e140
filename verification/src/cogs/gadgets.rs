//! Showing a distribution's logo in the style of a system information
//! tool: which distribution is shown, in which colour, and with what
//! text.

use crate::number::{digit_value, read_digit};
use vstd::prelude::*;
use vstd::slice::*;
use vstd::string::*;

verus! {

/// One distribution that can be shown.
#[derive(Clone, Debug, PartialEq, Eq)]
pub struct Distro {
    pub distro: String,
    pub logo: String,
    /// The number of the terminal colour that the accents are shown in.
    pub color_index: String,
    /// The accent colour as six hexadecimal digits: red, green, blue.
    pub color_rgb: String,
}

/// What a `Distro` holds.
pub struct DistroModel {
    pub distro: Seq<char>,
    pub logo: Seq<char>,
    pub color_index: Seq<char>,
    pub color_rgb: Seq<char>,
}

impl View for Distro {
    type V = DistroModel;

    open spec fn view(&self) -> DistroModel {
        DistroModel {
            distro: self.distro@,
            logo: self.logo@,
            color_index: self.color_index@,
            color_rgb: self.color_rgb@,
        }
    }
}

/// Why a colour could not be read.
#[derive(Clone, Copy, Debug, PartialEq, Eq, Structural)]
pub enum ColorError {
    /// The text ends before the digits of a part of the colour.
    TooShort,
    /// A part of the colour is not written in hexadecimal digits.
    InvalidDigit,
}

/// Picks one of `choices` at random.
///
/// Trusted: calls `SliceRandom::choose` of rand on the choices, with the
/// generator of the current thread. It returns nothing for an empty slice
/// and else a reference to one of its elements; which one is not said.
#[verifier::external_body]
fn pick_at_random<T>(choices: &Vec<T>) -> (picked: Option<&T>)
    ensures
        picked is Some <==> choices@.len() > 0,
        picked matches Some(choice) ==> choices@.contains(*choice),
{
    rand::seq::SliceRandom::choose(choices.as_slice(), &mut rand::thread_rng())
}

/// The message for a search that found nothing to show.
pub open spec fn no_match_text(query: Option<Seq<char>>, mobile: bool) -> Seq<char> {
    match query {
        Some(query) => if mobile {
            "No mobile-width distro icons found matching query '"@ + query + "'"@
        } else {
            "No distros found matching query '"@ + query + "'"@
        },
        None => "No distros found."@,
    }
}

/// Says that nothing was found: for the query, where there was one, and
/// for mobile width, where only such icons were searched.
pub fn no_match_message(query: &Option<String>, mobile: bool) -> (message: String)
    ensures
        message@ == no_match_text(query.deep_view(), mobile),
{
    match query {
        Some(query) => {
            let mut message = if mobile {
                String::from_str("No mobile-width distro icons found matching query '")
            } else {
                String::from_str("No distros found matching query '")
            };
            message.append(query.as_str());
            message.append("'");
            message
        },
        None => String::from_str("No distros found."),
    }
}

/// Takes what was picked, or says that nothing was found where nothing
/// was picked.
pub fn or_no_match<'a>(
    picked: Option<&'a Distro>,
    query: &Option<String>,
    mobile: bool,
) -> (selected: Result<&'a Distro, String>)
    ensures
        match picked {
            Some(choice) => selected == Ok::<&Distro, String>(choice),
            None => selected matches Err(message) && message@ == no_match_text(
                query.deep_view(),
                mobile,
            ),
        },
{
    match picked {
        Some(choice) => Ok(choice),
        None => Err(no_match_message(query, mobile)),
    }
}

/// Picks the distribution to show: any one of `choices`. Where there is
/// none to pick, the message for a search that found nothing is returned
/// in its place.
pub fn select<'a>(
    choices: &'a Vec<Distro>,
    query: &Option<String>,
    mobile: bool,
) -> (selected: Result<&'a Distro, String>)
    ensures
        selected is Ok <==> choices@.len() > 0,
        selected matches Ok(choice) ==> choices@.contains(*choice),
        selected matches Err(message) ==> message@ == no_match_text(query.deep_view(), mobile),
{
    or_no_match(pick_at_random(choices), query, mobile)
}

/// The number that two bytes of text stand for in hexadecimal notation: a
/// pair of digits, or a plus sign and one digit.
pub open spec fn hex_pair(high: u8, low: u8) -> Option<u8> {
    if high == 43 {
        digit_value(low, true)
    } else {
        match (digit_value(high, true), digit_value(low, true)) {
            (Some(h), Some(l)) => Some((16 * h + l) as u8),
            _ => None,
        }
    }
}

/// The part of a colour that `text` holds in its bytes `at` and `at + 1`.
pub open spec fn color_part(text: Seq<u8>, at: int) -> Result<u8, ColorError> {
    if text.len() < at + 2 {
        Err(ColorError::TooShort)
    } else {
        match hex_pair(text[at], text[at + 1]) {
            Some(part) => Ok(part),
            None => Err(ColorError::InvalidDigit),
        }
    }
}

/// The colour that `text` holds in its first six bytes: red, green and
/// blue, two bytes each, read in this order up to the first part that
/// cannot be read.
pub open spec fn color_of(text: Seq<u8>) -> Result<(u8, u8, u8), ColorError> {
    match color_part(text, 0) {
        Ok(red) => match color_part(text, 2) {
            Ok(green) => match color_part(text, 4) {
                Ok(blue) => Ok((red, green, blue)),
                Err(e) => Err(e),
            },
            Err(e) => Err(e),
        },
        Err(e) => Err(e),
    }
}

fn parse_part(text: &[u8], at: usize) -> (part: Result<u8, ColorError>)
    requires
        at <= 4,
    ensures
        part == color_part(text@, at as int),
{
    if text.len() < at + 2 {
        return Err(ColorError::TooShort);
    }
    let high = text[at];
    let low = text[at + 1];
    if high == 43 {
        return match read_digit(low, true) {
            Some(value) => Ok(value),
            None => Err(ColorError::InvalidDigit),
        };
    }
    match (read_digit(high, true), read_digit(low, true)) {
        (Some(h), Some(l)) => Ok(16 * h + l),
        _ => Err(ColorError::InvalidDigit),
    }
}

/// Reads the accent colour of a distribution from its six hexadecimal
/// digits.
pub fn parse_rgb(color_rgb: &str) -> (color: Result<(u8, u8, u8), ColorError>)
    ensures
        color == color_of(color_rgb.spec_bytes()),
{
    let text = color_rgb.as_bytes();
    let red = match parse_part(text, 0) {
        Ok(part) => part,
        Err(e) => {
            return Err(e);
        },
    };
    let green = match parse_part(text, 2) {
        Ok(part) => part,
        Err(e) => {
            return Err(e);
        },
    };
    let blue = match parse_part(text, 4) {
        Ok(part) => part,
        Err(e) => {
            return Err(e);
        },
    };
    Ok((red, green, blue))
}

impl ColorError {
    /// What the error says.
    pub open spec fn text(self) -> Seq<char> {
        match self {
            ColorError::TooShort => "colour has fewer than six digits"@,
            ColorError::InvalidDigit => "invalid digit found in string"@,
        }
    }

    /// What the error says.
    pub fn message(&self) -> (text: String)
        ensures
            text@ == self.text(),
    {
        match self {
            ColorError::TooShort => String::from_str("colour has fewer than six digits"),
            ColorError::InvalidDigit => String::from_str("invalid digit found in string"),
        }
    }
}

/// The escape sequence that switches a terminal to the colour `index`.
pub open spec fn accent(index: Seq<char>) -> Seq<char> {
    "\u{1b}["@ + index + "m"@
}

/// The escape sequence that switches a terminal back to its own colours.
pub open spec fn normal() -> Seq<char> {
    "\u{1b}[0m"@
}

impl DistroModel {
    /// The text that shows the distribution: its logo, and under it the
    /// user at their channel, the distribution's name and the host, with
    /// accents in the distribution's colour.
    pub open spec fn description(self, author: Seq<char>, channel: Seq<char>) -> Seq<char> {
        "```ansi\n"@ + self.logo + "\n```\n```ansi\n"@ + accent(self.color_index) + author + "@"@
            + channel + normal() + "\n"@ + accent(self.color_index) + "OS:"@ + normal() + " "@
            + self.distro + "\n"@ + accent(self.color_index) + "Host:"@ + normal()
            + " Discord\n```"@
    }
}

impl Distro {
    fn append_accent(&self, out: &mut String)
        ensures
            final(out)@ == old(out)@ + accent(self.color_index@),
    {
        out.append("\u{1b}[");
        out.append(self.color_index.as_str());
        out.append("m");
        assert(final(out)@ =~= old(out)@ + accent(self.color_index@));
    }

    /// Writes the text that shows the distribution to the user `author`
    /// in the channel `channel`.
    pub fn description(&self, author: &str, channel: &str) -> (text: String)
        ensures
            text@ == self@.description(author@, channel@),
    {
        let mut text = String::from_str("```ansi\n");
        text.append(self.logo.as_str());
        text.append("\n```\n```ansi\n");
        self.append_accent(&mut text);
        text.append(author);
        text.append("@");
        text.append(channel);
        text.append("\u{1b}[0m");
        text.append("\n");
        self.append_accent(&mut text);
        text.append("OS:");
        text.append("\u{1b}[0m");
        text.append(" ");
        text.append(self.distro.as_str());
        text.append("\n");
        self.append_accent(&mut text);
        text.append("Host:");
        text.append("\u{1b}[0m");
        text.append(" Discord\n```");
        assert(text@ =~= self@.description(author@, channel@));
        text
    }
}

} // verus!
