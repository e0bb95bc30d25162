//! The external commands that a change calls for: one per display with the new
//! brightness, and the desktop notification that shows the offset. They are
//! described here and run by the host.

use crate::config::{commands_of, DisplayTarget};
use crate::decimal::{append_decimal, decimal, to_decimal};
use vstd::prelude::*;
use vstd::string::*;

verus! {

/// A command to start: the program and its arguments.
#[derive(Clone, Debug, PartialEq, Eq)]
pub struct Invocation {
    pub program: String,
    pub args: Vec<String>,
}

/// A command as plain text.
pub struct InvocationView {
    pub program: Seq<char>,
    pub args: Seq<Seq<char>>,
}

/// The text of each of a list of strings.
pub open spec fn texts_of(strings: Seq<String>) -> Seq<Seq<char>> {
    strings.map_values(|text: String| text@)
}

impl View for Invocation {
    type V = InvocationView;

    open spec fn view(&self) -> InvocationView {
        InvocationView { program: self.program@, args: texts_of(self.args@) }
    }
}

/// The view of each of a list of commands.
pub open spec fn views_of(plan: Seq<Invocation>) -> Seq<InvocationView> {
    plan.map_values(|command: Invocation| command@)
}

/// The command that sets one display to `output`: the display's command with
/// the brightness in base ten as its only argument.
pub open spec fn display_invocation(cmd: Seq<char>, output: int) -> InvocationView {
    InvocationView { program: cmd, args: seq![decimal(output)] }
}

/// The commands that set every display to `output`, in the displays' order.
pub open spec fn dispatch_plan(displays: Seq<Seq<char>>, output: int) -> Seq<InvocationView> {
    displays.map_values(|cmd: Seq<char>| display_invocation(cmd, output))
}

/// The message that shows the offset to the user.
pub open spec fn notification_text(offset: int) -> Seq<char> {
    "Brightness Offset is: "@ + decimal(offset)
}

/// The command that shows the offset to the user.
pub open spec fn notification(offset: int) -> InvocationView {
    InvocationView {
        program: "notify-send"@,
        args: seq!["--app-name=Autobrightd"@, notification_text(offset)],
    }
}

/// Lists the commands that set every display to `output`.
///
/// Each is independent of the others: the host starts all of them, whether or
/// not an earlier one could be started, and waits for none.
pub fn display_dispatch(displays: &Vec<DisplayTarget>, output: u32) -> (plan: Vec<Invocation>)
    ensures
        views_of(plan@) == dispatch_plan(commands_of(displays@), output as int),
{
    let mut plan: Vec<Invocation> = Vec::new();
    let mut i: usize = 0;
    while i < displays.len()
        invariant
            i <= displays.len(),
            plan@.len() == i,
            forall|j: int|
                0 <= j < i ==> (#[trigger] plan@[j])@ == display_invocation(
                    displays@[j]@,
                    output as int,
                ),
        decreases displays.len() - i,
    {
        let mut args: Vec<String> = Vec::new();
        args.push(to_decimal(output as i64));
        let command = Invocation { program: displays[i].cmd.clone(), args };
        assert(texts_of(command.args@) =~= seq![decimal(output as int)]);
        plan.push(command);
        i = i + 1;
    }
    plan
}

/// The message that shows `offset` to the user.
pub fn notification_message(offset: i32) -> (message: String)
    ensures
        message@ == notification_text(offset as int),
{
    let mut message = String::from_str("Brightness Offset is: ");
    append_decimal(&mut message, offset as i64);
    message
}

/// The command that shows `offset` to the user as a desktop notification.
pub fn brightness_notify(offset: i32) -> (command: Invocation)
    ensures
        command@ == notification(offset as int),
{
    let mut args: Vec<String> = Vec::new();
    args.push(String::from_str("--app-name=Autobrightd"));
    args.push(notification_message(offset));
    let command = Invocation { program: String::from_str("notify-send"), args };
    assert(texts_of(command.args@) =~= seq!["--app-name=Autobrightd"@, notification_text(offset as int)]);
    command
}

} // verus!
