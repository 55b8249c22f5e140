use oliviabot::cogs::debug::{
    format_duration, format_ping, ping_lines, plain_commits, recent_commits, stats, Commit,
    MAX_COMMITS_SHOWN, MAX_PLAIN_COMMITS_SHOWN,
};
use oliviabot::time::{elapsed_between, Elapsed, OutOfRange, Timestamp};
use std::time::Duration;

fn at(secs: i64, nanos: u32) -> Timestamp {
    Timestamp { unix_nanos: secs as i128 * 1_000_000_000 + nanos as i128 }
}

fn commit(oid: &str, message: Option<&str>, timestamp: &str) -> Commit {
    Commit {
        oid: oid.to_string(),
        message: message.map(|m| m.to_string()),
        timestamp: timestamp.to_string(),
    }
}

const OID: &str = "0123456789abcdef0123456789abcdef01234567";

#[test]
fn elapsed_is_the_difference_of_two_moments() {
    assert_eq!(elapsed_between(at(10, 0), at(10, 0)), Ok(Elapsed { secs: 0, nanos: 0 }));
    assert_eq!(elapsed_between(at(10, 5), at(12, 7)), Ok(Elapsed { secs: 2, nanos: 2 }));
    assert_eq!(
        elapsed_between(at(10, 900_000_000), at(12, 100_000_000)),
        Ok(Elapsed { secs: 1, nanos: 200_000_000 })
    );
    assert_eq!(elapsed_between(at(-3, 0), at(2, 1)), Ok(Elapsed { secs: 5, nanos: 1 }));
}

#[test]
fn elapsed_backwards_is_out_of_range() {
    assert_eq!(elapsed_between(at(10, 1), at(10, 0)), Err(OutOfRange));
    assert_eq!(elapsed_between(at(0, 0), at(-1, 999_999_999)), Err(OutOfRange));
}

#[test]
fn elapsed_too_long_is_out_of_range() {
    let longest = u64::MAX as i128 * 1_000_000_000 + 999_999_999;
    let start = Timestamp { unix_nanos: 0 };
    assert_eq!(
        elapsed_between(start, Timestamp { unix_nanos: longest }),
        Ok(Elapsed { secs: u64::MAX, nanos: 999_999_999 })
    );
    assert_eq!(elapsed_between(start, Timestamp { unix_nanos: longest + 1 }), Err(OutOfRange));
    assert_eq!(
        elapsed_between(Timestamp { unix_nanos: i128::MIN }, Timestamp { unix_nanos: i128::MAX }),
        Err(OutOfRange)
    );
    assert_eq!(
        elapsed_between(Timestamp { unix_nanos: -1 }, Timestamp { unix_nanos: longest }),
        Err(OutOfRange)
    );
}

#[test]
fn duration_prints_as_the_standard_duration_does() {
    assert_eq!(format_duration(at(10, 0), at(10, 0)), Ok("0ns".to_string()));
    assert_eq!(format_duration(at(10, 0), at(10, 152_411_558)), Ok("152.411558ms".to_string()));
    assert_eq!(format_duration(at(10, 0), at(11, 500_000_000)), Ok("1.5s".to_string()));
    for (secs, nanos) in [(0u64, 1u32), (3, 0), (59, 999_999_999), (86_400, 1_000)] {
        assert_eq!(
            format_duration(at(7, 0), at(7 + secs as i64, nanos)),
            Ok(format!("{:?}", Duration::new(secs, nanos)))
        );
    }
    assert_eq!(format_duration(at(10, 1), at(10, 0)), Err(OutOfRange));
}

#[test]
fn ping_before_the_answer_is_sent() {
    let text = format_ping(
        at(100, 0),
        at(100, 250_000_000),
        None,
        Some(Elapsed { secs: 0, nanos: 48_000_000 }),
    );
    assert_eq!(
        text,
        Ok("Discord -> Bot: 250ms\nBot -> Discord: ...\nGateway: 48ms".to_string())
    );
}

#[test]
fn ping_after_the_answer_is_sent() {
    let text = format_ping(
        at(100, 0),
        at(100, 250_000_000),
        Some(at(101, 0)),
        Some(Elapsed { secs: 1, nanos: 0 }),
    );
    assert_eq!(
        text,
        Ok("Discord -> Bot: 250ms\nBot -> Discord: 750ms\nGateway: 1s".to_string())
    );
}

#[test]
fn ping_without_the_gateway_has_two_lines() {
    assert_eq!(
        format_ping(at(100, 0), at(100, 250_000_000), None, None),
        Ok("Discord -> Bot: 250ms\nBot -> Discord: ...".to_string())
    );
    assert_eq!(
        format_ping(at(100, 0), at(100, 250_000_000), Some(at(100, 500_000_000)), None),
        Ok("Discord -> Bot: 250ms\nBot -> Discord: 250ms".to_string())
    );
}

#[test]
fn ping_with_a_time_out_of_range_fails() {
    let gateway = Some(Elapsed { secs: 0, nanos: 1 });
    assert_eq!(format_ping(at(101, 0), at(100, 0), None, gateway), Err(OutOfRange));
    assert_eq!(format_ping(at(100, 0), at(101, 0), Some(at(100, 0)), gateway), Err(OutOfRange));
    assert_eq!(
        format_ping(
            at(100, 0),
            at(101, 0),
            None,
            Some(Elapsed { secs: u64::MAX, nanos: 1_000_000_000 })
        ),
        Err(OutOfRange)
    );
}

#[test]
fn gateway_time_carries_whole_seconds() {
    assert_eq!(
        Elapsed { secs: 1, nanos: 2_500_000_000 }.settle(),
        Ok(Elapsed { secs: 3, nanos: 500_000_000 })
    );
    assert_eq!(
        Elapsed { secs: u64::MAX - 4, nanos: u32::MAX }.settle(),
        Ok(Elapsed { secs: u64::MAX, nanos: 294_967_295 })
    );
    assert_eq!(Elapsed { secs: u64::MAX - 3, nanos: u32::MAX }.settle(), Err(OutOfRange));
    assert_eq!(
        format_ping(at(0, 0), at(0, 0), None, Some(Elapsed { secs: 1, nanos: 2_500_000_000 })),
        Ok("Discord -> Bot: 0ns\nBot -> Discord: ...\nGateway: 3.5s".to_string())
    );
}

#[test]
fn out_of_range_says_what_is_wrong() {
    assert_eq!(
        OutOfRange.message(),
        "Source duration value is out of range for the target type"
    );
}

#[test]
fn without_a_repository_the_text_says_so() {
    assert_eq!(recent_commits(None), "*No Git repository found*");
}

#[test]
fn a_repository_without_commits_lists_nothing() {
    assert_eq!(recent_commits(Some(("https://example.org/bot", &Vec::new()))), "");
}

#[test]
fn a_commit_is_shown_on_one_line() {
    let commits = vec![commit(OID, Some("Fix the ping\n"), "<t:1700000000:R>")];
    assert_eq!(
        recent_commits(Some(("https://example.org/bot", &commits))),
        "\n[`012345`](https://example.org/bot/commit/0123456789abcdef0123456789abcdef01234567) \
         <t:1700000000:R>: Fix the ping"
    );
}

#[test]
fn a_commit_message_is_trimmed_and_then_cut() {
    let long = format!("  \t{}\n\n", "x".repeat(80));
    let commits = vec![commit(OID, Some(&long), "now")];
    let text = recent_commits(Some(("u", &commits)));
    assert!(text.ends_with(&format!("now: {}", "x".repeat(50))));
    let inner = vec![commit(OID, Some(" a  b "), "now")];
    assert!(recent_commits(Some(("u", &inner))).ends_with("now: a  b"));
    let blank = vec![commit(OID, Some(" \u{a0}\u{2003}\n"), "now")];
    assert!(recent_commits(Some(("u", &blank))).ends_with("now: "));
}

#[test]
fn a_commit_without_a_valid_message_says_so() {
    let commits = vec![commit(OID, None, "now")];
    assert!(recent_commits(Some(("u", &commits))).ends_with("now: <invalid UTF-8>"));
}

#[test]
fn only_the_first_commits_are_shown() {
    assert_eq!(MAX_COMMITS_SHOWN, 4);
    let oids: Vec<String> = (0..6).map(|n| format!("{n}{}", &OID[1..])).collect();
    let commits: Vec<Commit> =
        oids.iter().map(|oid| commit(oid, Some("message"), "then")).collect();
    let text = recent_commits(Some(("u", &commits)));
    assert_eq!(text.lines().count(), 5);
    for (n, oid) in oids.iter().enumerate() {
        assert_eq!(text.contains(oid.as_str()), n < 4);
    }
    let first = text.find(oids[0].as_str()).expect("the first commit");
    let fourth = text.find(oids[3].as_str()).expect("the fourth commit");
    assert!(first < fourth);
}

#[test]
fn a_short_name_is_shown_whole() {
    let commits = vec![commit("abc", Some("m"), "t")];
    assert_eq!(recent_commits(Some(("u", &commits))), "\n[`abc`](u/commit/abc) t: m");
}

#[test]
fn stats_count_the_servers() {
    assert_eq!(stats(0), "0 servers\n");
    assert_eq!(stats(1), "1 servers\n");
    assert_eq!(stats(1234), "1234 servers\n");
}

#[test]
fn ping_lines_lay_the_times_out() {
    assert_eq!(
        ping_lines("1ms", "2ms", Some("3ms")),
        "Discord -> Bot: 1ms\nBot -> Discord: 2ms\nGateway: 3ms"
    );
    assert_eq!(ping_lines("1ms", "...", None), "Discord -> Bot: 1ms\nBot -> Discord: ...");
    assert_eq!(
        ping_lines("", "", Some("")),
        "Discord -> Bot: \nBot -> Discord: \nGateway: "
    );
}

#[test]
fn a_commit_line_takes_the_message_as_it_is_given() {
    let shown = commit(OID, Some("ignored"), "then");
    let mut out = String::from("Commits:");
    shown.append_line_with("https://example.org/bot", "  kept as given  ", &mut out);
    assert_eq!(
        out,
        "Commits:\n[`012345`](https://example.org/bot/commit/\
         0123456789abcdef0123456789abcdef01234567) then:   kept as given  "
    );
    let mut out = String::new();
    shown.append_line_with("u", &"y".repeat(51), &mut out);
    assert!(out.ends_with(&format!("then: {}", "y".repeat(50))));
    let mut out = String::new();
    shown.append_line("u", &mut out);
    assert!(out.ends_with("then: ignored"));
}

#[test]
fn plain_list_without_a_repository_says_so() {
    assert_eq!(plain_commits(None), "*No Git repository found*");
    assert_eq!(plain_commits(Some(("u", &Vec::new()))), "");
}

#[test]
fn plain_line_is_what_the_standard_formatting_gives() {
    for (oid, message) in [
        (OID, "Fix the ping"),
        (OID, "  a message that is longer than sixteen characters\n"),
        (OID, ""),
        ("abc", "\u{e9}t\u{e9}"),
        ("abcdef", "exactly sixteen."),
    ] {
        let commits = vec![commit(oid, Some(message), "2 days ago")];
        assert_eq!(
            plain_commits(Some(("https://example.org/bot", &commits))),
            format!(
                "\n[`{:06}`]({}) {}: {:16}",
                oid, "https://example.org/bot", "2 days ago", message
            )
        );
    }
    let commits = vec![commit("abc", None, "now")];
    assert_eq!(plain_commits(Some(("u", &commits))), "\n[`abc   `](u) now: <invalid UTF-8> ");
}

#[test]
fn plain_list_shows_only_the_first_commits() {
    assert_eq!(MAX_PLAIN_COMMITS_SHOWN, 6);
    let oids: Vec<String> = (0..8).map(|n| format!("{n}{}", &OID[1..])).collect();
    let commits: Vec<Commit> =
        oids.iter().map(|oid| commit(oid, Some("message"), "then")).collect();
    let text = plain_commits(Some(("u", &commits)));
    for (n, oid) in oids.iter().enumerate() {
        assert_eq!(text.contains(oid.as_str()), n < 6);
    }
    assert_eq!(text.matches("\n[`").count(), 6);
}
