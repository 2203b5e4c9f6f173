//! What the user is told at the turning points of the cycle.

use vstd::prelude::*;
use vstd::string::StringExecFns;
use crate::decimal::{decimal_digits, format_decimal};

verus! {

/// A message for the user, produced by a transition of the record.
#[derive(Clone, Copy, Debug, PartialEq, Eq, Structural)]
pub enum Notification {
    /// A work session has run its length: rest for `minutes` minutes.
    TimeToBreak { minutes: u32 },
    /// The user came back before the break had run its length.
    BreakNotFinished,
    /// The break has run its length and the user is still away.
    TimeToWork,
}

impl Notification {
    /// The headline of the notification.
    pub open spec fn title_text(self) -> Seq<char> {
        match self {
            Notification::TimeToBreak { .. } => "It's time to break!"@,
            Notification::BreakNotFinished => "Your break is not finished yet!"@,
            Notification::TimeToWork => "It's time to work"@,
        }
    }

    /// The second line of the notification, which may be empty.
    pub open spec fn subtitle_text(self) -> Seq<char> {
        match self {
            Notification::TimeToBreak { .. } => Seq::empty(),
            Notification::BreakNotFinished => "Take a break"@,
            Notification::TimeToWork => Seq::empty(),
        }
    }

    /// The body of the notification, which may be empty. The call to a break
    /// names its length in minutes, in decimal notation.
    pub open spec fn message_text(self) -> Seq<char> {
        match self {
            Notification::TimeToBreak { minutes } => "Take a "@ + decimal_digits(minutes as nat)
                + " minutes break"@,
            Notification::BreakNotFinished => "You started wroking too early"@,
            Notification::TimeToWork => Seq::empty(),
        }
    }

    /// The headline of the notification.
    pub fn title(&self) -> (text: String)
        ensures
            text@ == self.title_text(),
    {
        match self {
            Notification::TimeToBreak { .. } => String::from_str("It's time to break!"),
            Notification::BreakNotFinished => String::from_str("Your break is not finished yet!"),
            Notification::TimeToWork => String::from_str("It's time to work"),
        }
    }

    /// The second line of the notification.
    pub fn subtitle(&self) -> (text: String)
        ensures
            text@ == self.subtitle_text(),
    {
        match self {
            Notification::TimeToBreak { .. } => String::new(),
            Notification::BreakNotFinished => String::from_str("Take a break"),
            Notification::TimeToWork => String::new(),
        }
    }

    /// The body of the notification.
    pub fn message(&self) -> (text: String)
        ensures
            text@ == self.message_text(),
    {
        match self {
            Notification::TimeToBreak { minutes } => {
                let mut text = String::from_str("Take a ");
                let digits = format_decimal(*minutes);
                text.append(digits.as_str());
                text.append(" minutes break");
                text
            },
            Notification::BreakNotFinished => String::from_str("You started wroking too early"),
            Notification::TimeToWork => String::new(),
        }
    }
}

/// The shell command that shows a notification with the given texts. The
/// texts are placed between double quotes as they are.
pub open spec fn notify_command_text(
    title: Seq<char>,
    subtitle: Seq<char>,
    message: Seq<char>,
) -> Seq<char> {
    "terminal-notifier -sound default -title \""@ + title + "\" -subtitle \""@ + subtitle
        + "\" -message \""@ + message + "\" -appIcon \"./timer.png\""@
}

/// Builds the shell command that shows a notification with the given texts.
pub fn notify_command(title: &str, subtitle: &str, message: &str) -> (command: String)
    ensures
        command@ == notify_command_text(title@, subtitle@, message@),
{
    let mut command = String::from_str("terminal-notifier -sound default -title \"");
    command.append(title);
    command.append("\" -subtitle \"");
    command.append(subtitle);
    command.append("\" -message \"");
    command.append(message);
    command.append("\" -appIcon \"./timer.png\"");
    command
}

} // verus!
