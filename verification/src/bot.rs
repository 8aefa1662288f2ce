//! The bot's decisions: which chats it serves, what each command and each
//! confirmation button asks for, and what the user is answered.
//!
//! The program around the library receives the updates, carries out the
//! action that a decision names, and sends the answer built here.
use vstd::prelude::*;
use crate::system_manager::{SystemError, SystemStats};
use crate::text::{
    decimal, lemma_trim_idempotent, parse_u16, parse_u16_str, trim, trim_str, u64_to_decimal,
};

verus! {

/// A command sent to the bot; the argument of `/kill` and `/vol` is the
/// text after the command, as received.
#[derive(Debug, Clone, PartialEq, Eq)]
pub enum Command {
    /// `/help`: the list of commands.
    Help,
    /// `/status`: CPU load and memory use.
    Status,
    /// `/youtube`: open YouTube in the browser.
    Youtube,
    /// `/kill <name>`: end the processes with that name.
    Kill(String),
    /// `/vol <0-100>`: set the volume.
    Vol(String),
    /// `/poweroff`: shut the computer down, after confirmation.
    Poweroff,
    /// `/reboot`: reboot the computer, after confirmation.
    Reboot,
}

/// A command, with its argument as characters.
pub enum CommandView {
    Help,
    Status,
    Youtube,
    Kill(Seq<char>),
    Vol(Seq<char>),
    Poweroff,
    Reboot,
}

impl View for Command {
    type V = CommandView;

    open spec fn view(&self) -> CommandView {
        match self {
            Command::Help => CommandView::Help,
            Command::Status => CommandView::Status,
            Command::Youtube => CommandView::Youtube,
            Command::Kill(a) => CommandView::Kill(a@),
            Command::Vol(a) => CommandView::Vol(a@),
            Command::Poweroff => CommandView::Poweroff,
            Command::Reboot => CommandView::Reboot,
        }
    }
}

/// An operation that ends the session of the computer.
#[derive(Debug, Clone, Copy, PartialEq, Eq)]
pub enum PowerAction {
    /// Shut down.
    Shutdown,
    /// Reboot.
    Reboot,
}

/// What the bot does for a command.
#[derive(Debug, Clone, PartialEq, Eq)]
pub enum Action {
    /// Nothing at all: the chat is not allowed.
    Ignore,
    /// Send this text.
    Reply(String),
    /// Read the CPU and memory figures and send them.
    Status,
    /// Open this link and send the outcome.
    OpenUrl(String),
    /// End the processes with this name and send the outcome.
    Kill(String),
    /// Set the volume to this level (at most 100) and send the outcome.
    SetVolume(u16),
    /// Ask, with a confirm and a cancel button, before this operation.
    Confirm(PowerAction),
}

/// An action, with its texts as characters.
pub enum ActionView {
    Ignore,
    Reply(Seq<char>),
    Status,
    OpenUrl(Seq<char>),
    Kill(Seq<char>),
    SetVolume(u16),
    Confirm(PowerAction),
}

impl View for Action {
    type V = ActionView;

    open spec fn view(&self) -> ActionView {
        match self {
            Action::Ignore => ActionView::Ignore,
            Action::Reply(t) => ActionView::Reply(t@),
            Action::Status => ActionView::Status,
            Action::OpenUrl(u) => ActionView::OpenUrl(u@),
            Action::Kill(n) => ActionView::Kill(n@),
            Action::SetVolume(l) => ActionView::SetVolume(*l),
            Action::Confirm(p) => ActionView::Confirm(*p),
        }
    }
}

/// The list of commands that `/help` sends.
pub open spec fn help_text() -> Seq<char> {
    "Команды Remote Commander:\n\n/help — Список всех команд\n/status — Статус системы (CPU и RAM)\n/youtube — Открыть YouTube в браузере\n/kill — Завершить процесс: /kill <имя>\n/vol — Установить громкость: /vol <0-100>\n/poweroff — Выключить компьютер (запросит подтверждение)\n/reboot — Перезагрузить компьютер (запросит подтверждение)"@
}

/// The link that `/youtube` opens.
pub open spec fn youtube_url() -> Seq<char> {
    "https://www.youtube.com"@
}

/// The answer to `/kill` without a name.
pub open spec fn kill_usage() -> Seq<char> {
    "Использование: /kill <имя_процесса>"@
}

/// The answer to `/vol` without a level from 0 to 100.
pub open spec fn vol_usage() -> Seq<char> {
    "Использование: /vol <0-100>"@
}

/// The level that the argument of `/vol` asks for, if it is one: the
/// trimmed argument read as a `u16`, at most 100.
pub open spec fn volume_request(arg: Seq<char>) -> Option<u16> {
    match parse_u16(trim(arg)) {
        Some(level) => if level <= 100 {
            Some(level)
        } else {
            None
        },
        None => None,
    }
}

/// What the bot does when `chat` sends `cmd`, if the chats in `allowed`
/// are the ones it serves.
pub open spec fn command_action(allowed: Seq<i64>, chat: i64, cmd: CommandView) -> ActionView {
    if !allowed.contains(chat) {
        ActionView::Ignore
    } else {
        match cmd {
            CommandView::Help => ActionView::Reply(help_text()),
            CommandView::Status => ActionView::Status,
            CommandView::Youtube => ActionView::OpenUrl(youtube_url()),
            CommandView::Kill(arg) => if trim(arg).len() == 0 {
                ActionView::Reply(kill_usage())
            } else {
                ActionView::Kill(trim(arg))
            },
            CommandView::Vol(arg) => match volume_request(arg) {
                Some(level) => ActionView::SetVolume(level),
                None => ActionView::Reply(vol_usage()),
            },
            CommandView::Poweroff => ActionView::Confirm(PowerAction::Shutdown),
            CommandView::Reboot => ActionView::Confirm(PowerAction::Reboot),
        }
    }
}

/// Whether `chat` is one of `allowed`.
pub fn is_allowed(allowed: &Vec<i64>, chat: i64) -> (b: bool)
    ensures
        b == allowed@.contains(chat),
{
    let mut i: usize = 0;
    while i < allowed.len()
        invariant
            i <= allowed@.len(),
            forall|k: int| 0 <= k < i ==> allowed@[k] != chat,
        decreases allowed.len() - i,
    {
        if allowed[i] == chat {
            assert(allowed@[i as int] == chat);
            return true;
        }
        i = i + 1;
    }
    false
}

/// The level that the argument of `/vol` asks for, if it is one.
pub fn parse_volume_arg(arg: &str) -> (r: Option<u16>)
    ensures
        r == volume_request(arg@),
{
    let t = trim_str(arg);
    match parse_u16_str(t.as_str()) {
        Some(level) => if level <= 100 {
            Some(level)
        } else {
            None
        },
        None => None,
    }
}

/// Decides what the bot does when `chat` sends `cmd`, serving the chats in
/// `allowed` only.
pub fn handle_command(allowed: &Vec<i64>, chat: i64, cmd: Command) -> (a: Action)
    ensures
        a@ == command_action(allowed@, chat, cmd@),
{
    if !is_allowed(allowed, chat) {
        return Action::Ignore;
    }
    match cmd {
        Command::Help => Action::Reply("Команды Remote Commander:\n\n/help — Список всех команд\n/status — Статус системы (CPU и RAM)\n/youtube — Открыть YouTube в браузере\n/kill — Завершить процесс: /kill <имя>\n/vol — Установить громкость: /vol <0-100>\n/poweroff — Выключить компьютер (запросит подтверждение)\n/reboot — Перезагрузить компьютер (запросит подтверждение)".to_owned()),
        Command::Status => Action::Status,
        Command::Youtube => Action::OpenUrl("https://www.youtube.com".to_owned()),
        Command::Kill(arg) => {
            let name = trim_str(arg.as_str());
            if name.as_str().unicode_len() == 0 {
                Action::Reply("Использование: /kill <имя_процесса>".to_owned())
            } else {
                Action::Kill(name)
            }
        },
        Command::Vol(arg) => match parse_volume_arg(arg.as_str()) {
            Some(level) => Action::SetVolume(level),
            None => Action::Reply("Использование: /vol <0-100>".to_owned()),
        },
        Command::Poweroff => Action::Confirm(PowerAction::Shutdown),
        Command::Reboot => Action::Confirm(PowerAction::Reboot),
    }
}


/// The text of a failed operation's error as the user sees it.
pub open spec fn error_text(e: SystemError) -> Seq<char> {
    "Ошибка: "@ + e.spec_message()
}

fn error_reply(e: &SystemError) -> (s: String)
    ensures
        s@ == error_text(*e),
{
    let mut s = "Ошибка: ".to_owned();
    s.append(e.message().as_str());
    s
}

/// The memory line of the `/status` answer, for figures in megabytes.
pub open spec fn memory_text(stats: SystemStats) -> Seq<char> {
    "RAM: "@ + decimal(stats.used_memory as nat) + " МБ / "@ + decimal(stats.total_memory as nat)
        + " МБ"@
}

/// The memory line of the `/status` answer, for figures in megabytes; the
/// answer is the CPU line, a line break and this line.
pub fn memory_reply(stats: SystemStats) -> (s: String)
    ensures
        s@ == memory_text(stats),
{
    let mut s = "RAM: ".to_owned();
    s.append(u64_to_decimal(stats.used_memory).as_str());
    s.append(" МБ / ");
    s.append(u64_to_decimal(stats.total_memory).as_str());
    s.append(" МБ");
    s
}

/// The answer to `/youtube` once the browser was asked to open it.
pub fn youtube_reply(r: &Result<(), SystemError>) -> (s: String)
    ensures
        match r {
            Ok(_) => s@ == "YouTube открыт в браузере."@,
            Err(e) => s@ == error_text(*e),
        },
{
    match r {
        Ok(_) => "YouTube открыт в браузере.".to_owned(),
        Err(e) => error_reply(e),
    }
}

/// The answer to `/kill` once the processes were looked for.
pub fn kill_reply(r: &Result<String, SystemError>) -> (s: String)
    ensures
        match r {
            Ok(report) => s@ == report@,
            Err(e) => s@ == error_text(*e),
        },
{
    match r {
        Ok(report) => report.clone(),
        Err(e) => error_reply(e),
    }
}

/// The answer to `/vol` once the volume was set to `level`.
pub fn volume_reply(level: u16, r: &Result<(), SystemError>) -> (s: String)
    ensures
        match r {
            Ok(_) => s@ == "Громкость установлена: "@ + decimal(level as nat) + "%"@,
            Err(e) => s@ == error_text(*e),
        },
{
    match r {
        Ok(_) => {
            let mut s = "Громкость установлена: ".to_owned();
            s.append(u64_to_decimal(level as u64).as_str());
            s.append("%");
            s
        },
        Err(e) => error_reply(e),
    }
}

/// The callback data of the button that confirms `p`.
pub open spec fn confirm_data(p: PowerAction) -> Seq<char> {
    match p {
        PowerAction::Shutdown => "confirm_poweroff"@,
        PowerAction::Reboot => "confirm_reboot"@,
    }
}

/// The callback data of the button that cancels `p`.
pub open spec fn cancel_data(p: PowerAction) -> Seq<char> {
    match p {
        PowerAction::Shutdown => "cancel_poweroff"@,
        PowerAction::Reboot => "cancel_reboot"@,
    }
}

/// The question asked before `p`.
pub open spec fn prompt_text(p: PowerAction) -> Seq<char> {
    match p {
        PowerAction::Shutdown => "Выключить компьютер?"@,
        PowerAction::Reboot => "Перезагрузить компьютер?"@,
    }
}

/// The label of the button that confirms `p`.
pub open spec fn confirm_label(p: PowerAction) -> Seq<char> {
    match p {
        PowerAction::Shutdown => "✅ Да, выключить"@,
        PowerAction::Reboot => "✅ Да, перезагрузить"@,
    }
}

/// The label of the button that cancels.
pub open spec fn cancel_label() -> Seq<char> {
    "❌ Отмена"@
}

/// An inline button: its label and its callback data.
pub struct Button {
    pub label: String,
    pub data: String,
}

/// A question with one row of inline buttons.
pub struct Prompt {
    pub text: String,
    pub buttons: Vec<Button>,
}

/// The question, with a confirm and a cancel button, asked before `p`.
pub fn confirm_prompt(p: PowerAction) -> (r: Prompt)
    ensures
        r.text@ == prompt_text(p),
        r.buttons@.len() == 2,
        r.buttons@[0].label@ == confirm_label(p),
        r.buttons@[0].data@ == confirm_data(p),
        r.buttons@[1].label@ == cancel_label(),
        r.buttons@[1].data@ == cancel_data(p),
{
    let (text, label, confirm, cancel) = match p {
        PowerAction::Shutdown => (
            "Выключить компьютер?".to_owned(),
            "✅ Да, выключить".to_owned(),
            "confirm_poweroff".to_owned(),
            "cancel_poweroff".to_owned(),
        ),
        PowerAction::Reboot => (
            "Перезагрузить компьютер?".to_owned(),
            "✅ Да, перезагрузить".to_owned(),
            "confirm_reboot".to_owned(),
            "cancel_reboot".to_owned(),
        ),
    };
    let mut buttons: Vec<Button> = Vec::new();
    buttons.push(Button { label, data: confirm });
    buttons.push(Button { label: "❌ Отмена".to_owned(), data: cancel });
    Prompt { text, buttons }
}

/// The text that replaces the question once `p` is confirmed.
pub open spec fn confirmed_text(p: PowerAction) -> Seq<char> {
    match p {
        PowerAction::Shutdown => "Выключаю компьютер..."@,
        PowerAction::Reboot => "Перезагружаю компьютер..."@,
    }
}

/// The text that replaces the question once it is cancelled.
pub open spec fn cancelled_text() -> Seq<char> {
    "Отменено."@
}

/// What the bot does for a button press, besides answering the callback
/// query (which it always does): the new text of the question's message,
/// and the operation to carry out.
pub struct CallbackReply {
    pub edit: Option<String>,
    pub power: Option<PowerAction>,
}

/// A button press's outcome, with its text as characters.
pub struct CallbackView {
    pub edit: Option<Seq<char>>,
    pub power: Option<PowerAction>,
}

impl View for CallbackReply {
    type V = CallbackView;

    open spec fn view(&self) -> CallbackView {
        CallbackView {
            edit: match self.edit {
                Some(t) => Some(t@),
                None => None,
            },
            power: self.power,
        }
    }
}

/// A button press that changes nothing.
pub open spec fn no_callback_effect() -> CallbackView {
    CallbackView { edit: None, power: None }
}

/// What the bot does when a button with `data` is pressed under a message
/// in `chat` (`None` where the message is not known), if the chats in
/// `allowed` are the ones it serves.
pub open spec fn callback_effect(
    allowed: Seq<i64>,
    chat: Option<i64>,
    data: Option<Seq<char>>,
) -> CallbackView {
    match chat {
        None => no_callback_effect(),
        Some(c) => if !allowed.contains(c) {
            no_callback_effect()
        } else {
            match data {
                None => no_callback_effect(),
                Some(d) => if d == confirm_data(PowerAction::Shutdown) {
                    CallbackView {
                        edit: Some(confirmed_text(PowerAction::Shutdown)),
                        power: Some(PowerAction::Shutdown),
                    }
                } else if d == cancel_data(PowerAction::Shutdown) {
                    CallbackView { edit: Some(cancelled_text()), power: None }
                } else if d == confirm_data(PowerAction::Reboot) {
                    CallbackView {
                        edit: Some(confirmed_text(PowerAction::Reboot)),
                        power: Some(PowerAction::Reboot),
                    }
                } else if d == cancel_data(PowerAction::Reboot) {
                    CallbackView { edit: Some(cancelled_text()), power: None }
                } else {
                    no_callback_effect()
                },
            }
        },
    }
}

/// Decides what the bot does when a button with `data` is pressed under a
/// message in `chat`, serving the chats in `allowed` only.
pub fn handle_callback(allowed: &Vec<i64>, chat: Option<i64>, data: Option<String>) -> (r:
    CallbackReply)
    ensures
        r@ == callback_effect(
            allowed@,
            chat,
            match data {
                Some(d) => Some(d@),
                None => None,
            },
        ),
{
    let none = CallbackReply { edit: None, power: None };
    let c = match chat {
        Some(c) => c,
        None => return none,
    };
    if !is_allowed(allowed, c) {
        return none;
    }
    let d = match data {
        Some(d) => d,
        None => return none,
    };
    if d == "confirm_poweroff".to_owned() {
        CallbackReply {
            edit: Some("Выключаю компьютер...".to_owned()),
            power: Some(PowerAction::Shutdown),
        }
    } else if d == "cancel_poweroff".to_owned() {
        CallbackReply { edit: Some("Отменено.".to_owned()), power: None }
    } else if d == "confirm_reboot".to_owned() {
        CallbackReply {
            edit: Some("Перезагружаю компьютер...".to_owned()),
            power: Some(PowerAction::Reboot),
        }
    } else if d == "cancel_reboot".to_owned() {
        CallbackReply { edit: Some("Отменено.".to_owned()), power: None }
    } else {
        none
    }
}

/// The message sent when `p` failed with `e`.
pub fn power_error_reply(p: PowerAction, e: &SystemError) -> (s: String)
    ensures
        s@ == match p {
            PowerAction::Shutdown => "Ошибка выключения: "@,
            PowerAction::Reboot => "Ошибка перезагрузки: "@,
        } + e.spec_message(),
{
    let mut s = match p {
        PowerAction::Shutdown => "Ошибка выключения: ".to_owned(),
        PowerAction::Reboot => "Ошибка перезагрузки: ".to_owned(),
    };
    s.append(e.message().as_str());
    s
}


/// A chat that is not in the allowed list gets nothing for any command:
/// no answer and no operation.
pub proof fn law_unknown_chat_is_ignored(allowed: Seq<i64>, chat: i64, cmd: CommandView)
    requires
        !allowed.contains(chat),
    ensures
        command_action(allowed, chat, cmd) == ActionView::Ignore,
{
}

/// A button pressed in a chat that is not in the allowed list, or under a
/// message that is not known, changes nothing.
pub proof fn law_unknown_chat_buttons_do_nothing(
    allowed: Seq<i64>,
    chat: Option<i64>,
    data: Option<Seq<char>>,
)
    requires
        chat is None || !allowed.contains(chat->0),
    ensures
        callback_effect(allowed, chat, data) == no_callback_effect(),
{
}

/// Every command from an allowed chat is answered or carried out.
pub proof fn law_allowed_chat_is_served(allowed: Seq<i64>, chat: i64, cmd: CommandView)
    requires
        allowed.contains(chat),
    ensures
        command_action(allowed, chat, cmd) != ActionView::Ignore,
{
}

/// A command never shuts down or reboots by itself: `/poweroff` and
/// `/reboot` only ask for confirmation.
pub proof fn law_power_commands_ask_first(allowed: Seq<i64>, chat: i64)
    requires
        allowed.contains(chat),
    ensures
        command_action(allowed, chat, CommandView::Poweroff) == ActionView::Confirm(
            PowerAction::Shutdown,
        ),
        command_action(allowed, chat, CommandView::Reboot) == ActionView::Confirm(
            PowerAction::Reboot,
        ),
{
}

/// An operation on power happens exactly when its confirm button is
/// pressed in an allowed chat; a cancel button, or any other data, never
/// causes one.
pub proof fn law_power_only_on_confirmation(
    allowed: Seq<i64>,
    chat: Option<i64>,
    data: Option<Seq<char>>,
    p: PowerAction,
)
    ensures
        callback_effect(allowed, chat, data).power == Some(p) <==> (chat is Some
            && allowed.contains(chat->0) && data == Some(confirm_data(p))),
{
    reveal_strlit("confirm_poweroff");
    reveal_strlit("cancel_poweroff");
    reveal_strlit("confirm_reboot");
    reveal_strlit("cancel_reboot");
    // The four callback data strings differ from one another.
    assert("confirm_poweroff"@ != "confirm_reboot"@) by {
        assert("confirm_poweroff"@[8] != "confirm_reboot"@[8]);
    }
    assert("cancel_poweroff"@ != "confirm_reboot"@) by {
        assert("cancel_poweroff"@[1] != "confirm_reboot"@[1]);
    }
}

/// `/vol` sets the volume only to a level from 0 to 100, and exactly to the
/// level its argument names.
pub proof fn law_volume_in_range(allowed: Seq<i64>, chat: i64, arg: Seq<char>, level: u16)
    requires
        command_action(allowed, chat, CommandView::Vol(arg)) == ActionView::SetVolume(level),
    ensures
        level <= 100,
        parse_u16(trim(arg)) == Some(level),
{
}

/// `/kill` ends processes only for a name that is not blank and carries no
/// surrounding whitespace.
pub proof fn law_kill_needs_a_name(allowed: Seq<i64>, chat: i64, arg: Seq<char>, name: Seq<char>)
    requires
        command_action(allowed, chat, CommandView::Kill(arg)) == ActionView::Kill(name),
    ensures
        name.len() > 0,
        trim(name) == name,
{
    lemma_trim_idempotent(arg);
}

} // verus!
