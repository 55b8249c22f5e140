use oliviabot::number::ParseError;
use oliviabot::state::{neofetch_updated, repository_url};

#[test]
fn stamp_is_read_with_white_space_around_it() {
    assert_eq!(neofetch_updated("1700000000"), Ok(1_700_000_000));
    assert_eq!(neofetch_updated("1700000000\n"), Ok(1_700_000_000));
    assert_eq!(neofetch_updated(" \t-5\r\n"), Ok(-5));
    assert_eq!(neofetch_updated("\u{a0}+7\u{2003}"), Ok(7));
}

#[test]
fn stamp_that_is_no_number_is_refused() {
    assert_eq!(neofetch_updated(""), Err(ParseError::Empty));
    assert_eq!(neofetch_updated(" \n"), Err(ParseError::Empty));
    assert_eq!(neofetch_updated("17 00"), Err(ParseError::InvalidDigit));
    assert_eq!(neofetch_updated("yesterday"), Err(ParseError::InvalidDigit));
    assert_eq!(neofetch_updated("99999999999999999999"), Err(ParseError::PosOverflow));
}

#[test]
fn stamp_is_read_as_the_standard_reader_reads_it() {
    for stamp in ["1700000000\n", "  12", "", "\n", "1 2", "+", " - ", "-9223372036854775808 "] {
        assert_eq!(neofetch_updated(stamp).ok(), stamp.trim().parse::<i64>().ok(), "{:?}", stamp);
    }
}

#[test]
fn repository_url_leaves_the_git_suffix_off() {
    assert_eq!(
        repository_url("https://github.com/RocketRace/oliviabot.git"),
        "https://github.com/RocketRace/oliviabot"
    );
    assert_eq!(
        repository_url("https://github.com/RocketRace/oliviabot"),
        "https://github.com/RocketRace/oliviabot"
    );
    assert_eq!(repository_url("git@example.org:bot.git"), "git@example.org:bot");
}

#[test]
fn repository_url_leaves_every_git_suffix_off() {
    assert_eq!(repository_url("bot.git.git"), "bot");
    assert_eq!(repository_url(".git"), "");
    assert_eq!(repository_url(".git.git.git"), "");
    assert_eq!(repository_url("bot.git/"), "bot.git/");
    assert_eq!(repository_url("bot.GIT"), "bot.GIT");
    assert_eq!(repository_url("git"), "git");
    assert_eq!(repository_url(""), "");
    assert_eq!(repository_url("b\u{f6}t.git"), "b\u{f6}t");
}

#[test]
fn repository_url_is_what_the_standard_trimming_gives() {
    for remote in ["a.git", "a.git.git", ".git", "git", "a.gitx", "\u{1f600}.git", "x.git.gi"] {
        assert_eq!(repository_url(remote), remote.trim_end_matches(".git"), "{:?}", remote);
    }
}
