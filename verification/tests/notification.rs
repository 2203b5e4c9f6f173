use break_timer::decimal::format_decimal;
use break_timer::{notify_command, Notification};

#[test]
fn time_to_break_texts() {
    let long = Notification::TimeToBreak { minutes: 15 };
    assert_eq!(long.title(), "It's time to break!");
    assert_eq!(long.subtitle(), "");
    assert_eq!(long.message(), "Take a 15 minutes break");
    let short = Notification::TimeToBreak { minutes: 5 };
    assert_eq!(short.title(), "It's time to break!");
    assert_eq!(short.message(), "Take a 5 minutes break");
}

#[test]
fn break_not_finished_texts() {
    let early = Notification::BreakNotFinished;
    assert_eq!(early.title(), "Your break is not finished yet!");
    assert_eq!(early.subtitle(), "Take a break");
    assert_eq!(early.message(), "You started wroking too early");
}

#[test]
fn time_to_work_texts() {
    let back = Notification::TimeToWork;
    assert_eq!(back.title(), "It's time to work");
    assert_eq!(back.subtitle(), "");
    assert_eq!(back.message(), "");
}

#[test]
fn decimal_notation_matches_the_standard_one() {
    assert_eq!(format_decimal(0), "0");
    assert_eq!(format_decimal(9), "9");
    assert_eq!(format_decimal(10), "10");
    assert_eq!(format_decimal(900), "900");
    assert_eq!(format_decimal(1005), "1005");
    assert_eq!(format_decimal(u32::MAX), "4294967295");
    for n in (0..=u32::MAX).step_by(7_654_321) {
        assert_eq!(format_decimal(n), n.to_string());
    }
}

#[test]
fn command_quotes_the_three_texts() {
    assert_eq!(
        notify_command("It's time to work", "", ""),
        "terminal-notifier -sound default -title \"It's time to work\" -subtitle \"\" -message \"\" -appIcon \"./timer.png\""
    );
    let note = Notification::TimeToBreak { minutes: 15 };
    assert_eq!(
        notify_command(&note.title(), &note.subtitle(), &note.message()),
        "terminal-notifier -sound default -title \"It's time to break!\" -subtitle \"\" -message \"Take a 15 minutes break\" -appIcon \"./timer.png\""
    );
    assert_eq!(
        notify_command("a", "b", "c"),
        format!(
            "terminal-notifier -sound default -title \"{}\" -subtitle \"{}\" -message \"{}\" -appIcon \"./timer.png\"",
            "a", "b", "c"
        )
    );
}
