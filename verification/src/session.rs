//! What a connected client goes through: the main menu, logging in and
//! registering, the panel for ordinary accounts with its calculator, and the
//! panel for administrators.
//!
//! A `Session` takes one event at a time (a line the client sent, the end of
//! its input, or the reply to a request) and answers with the actions to
//! carry out in order: text to send, requests to the user store or the
//! calculator, the end of the session. After a request the session waits for
//! its reply before it reads the client again.

use crate::auth::{login_result, AuthError, AuthErrorModel, AuthUser, AuthUserModel, UserRecordModel};
use crate::password::stored_hash_accepts;
use crate::menu::{ADMIN_PANEL_MENU, CALCULATOR_BANNER, USER_PANEL_MENU, WELCOME_MENU};
use crate::text::{decimal, int_decimal, parse_i32, parsed_i32, trim, trimmed};
use vstd::prelude::*;

verus! {

/// One calculation of a user's history.
#[derive(Debug, Clone, PartialEq, Eq)]
pub struct HistoryEntry {
    pub expression: String,
    pub result: String,
}

/// One account as the administrators' list shows it.
#[derive(Debug, Clone, PartialEq, Eq)]
pub struct UserListing {
    pub id: i32,
    pub username: String,
    pub role: String,
}

/// One account's usage as the administrators' table shows it; the processor
/// time comes as the text it is shown with.
#[derive(Debug, Clone, PartialEq, Eq)]
pub struct UsageRow {
    pub username: String,
    pub cpu_seconds: String,
    pub ram_bytes: i64,
    pub calc_count: i64,
}

/// What happens to a session.
#[derive(Debug, PartialEq, Eq)]
pub enum Event {
    /// The client sent a line (as read, line end included).
    Line(String),
    /// The client's input ended.
    Eof,
    /// The reply to `Action::Login`.
    LoginResult(Result<AuthUser, AuthError>),
    /// The reply to `Action::Register`.
    RegistrationResult(Result<(), AuthError>),
    /// The reply to `Action::CreateUser`.
    CreationResult(Result<(), AuthError>),
    /// The reply to `Action::FetchUsage`; the processor time comes as the
    /// text it is shown with.
    UsageReport { cpu_seconds: String, ram_bytes: i64, calc_count: i64 },
    /// The reply to `Action::FetchHistory`.
    HistoryReport(Vec<HistoryEntry>),
    /// The reply to `Action::Evaluate`: the value's text, or `None` when the
    /// expression is not valid, and the memory in use after it.
    Evaluation { result: Option<String>, ram_bytes: i64 },
    /// The reply to `Action::ListUsers`.
    UserList(Vec<UserListing>),
    /// The reply to `Action::FetchUsageTable`.
    UsageTable(Vec<UsageRow>),
    /// The reply to `Action::AddUsage`, `Action::RecordCalculation`,
    /// `Action::UpdateRole` or `Action::DeleteUser` when the store did it.
    Stored,
    /// The reply to a request of the user store (other than logging in,
    /// registering and creating an account) that failed: its message.
    StoreFailed(String),
}

/// What a session asks to be done, in order.
#[derive(Debug, Clone, PartialEq, Eq)]
pub enum Action {
    /// Send the text to the client.
    Write(String),
    /// Log in; reply with `Event::LoginResult`.
    Login { username: String, password: String },
    /// Register an ordinary account; reply with `Event::RegistrationResult`.
    Register { username: String, password: String, confirm: String },
    /// Create an account with a role; reply with `Event::CreationResult`.
    CreateUser { username: String, password: String, role: String },
    /// Look up a user's usage; reply with `Event::UsageReport`.
    FetchUsage { user_id: i32 },
    /// Look up a user's recent calculations; reply with `Event::HistoryReport`.
    FetchHistory { user_id: i32 },
    /// Evaluate an expression, measuring the work; reply with `Event::Evaluation`.
    Evaluate { expression: String },
    /// Add to a user's usage the time of the last evaluation, this memory and
    /// this many calculations; reply with `Event::Stored` or `Event::StoreFailed`.
    AddUsage { user_id: i32, ram_bytes: i64, calc_count: i64 },
    /// Store a calculation in a user's history; reply with `Event::Stored`
    /// or `Event::StoreFailed`.
    RecordCalculation { user_id: i32, expression: String, result: String },
    /// List all accounts; reply with `Event::UserList`.
    ListUsers,
    /// Give an account a new role; reply with `Event::Stored` or
    /// `Event::StoreFailed`.
    UpdateRole { user_id: i32, role: String },
    /// Delete an account; reply with `Event::Stored` or `Event::StoreFailed`.
    DeleteUser { user_id: i32 },
    /// Fetch the usage of all accounts; reply with `Event::UsageTable`.
    FetchUsageTable,
    /// End the session normally.
    Disconnect,
    /// End the session with this error.
    Abort(String),
}

/// The series of prompts a session is in.
#[derive(Clone, Copy)]
pub enum FormKind {
    Login,
    Register,
    NewAccount,
    RoleChange,
    Removal,
}

/// The reply a session waits for.
pub enum Pending {
    Login,
    Registration,
    Usage,
    History,
    Evaluation { expression: String },
    UserList,
    Creation,
    UsageTable,
    UsageAdded { expression: String, result: String },
    CalculationRecorded { result: String },
    RoleUpdated,
    UserDeleted,
}

/// Where a session is.
pub enum Screen {
    Welcome,
    Form { kind: FormKind, fields: Vec<String> },
    Waiting { pending: Pending },
    UserPanel,
    Calculator,
    AdminPanel,
    Closed,
}

/// A client's session.
pub struct Session {
    screen: Screen,
    user: Option<AuthUser>,
}

// ---------------------------------------------------------------------------
// The session as values

pub struct HistoryEntryModel {
    pub expression: Seq<char>,
    pub result: Seq<char>,
}

pub struct UserListingModel {
    pub id: i32,
    pub username: Seq<char>,
    pub role: Seq<char>,
}

pub struct UsageRowModel {
    pub username: Seq<char>,
    pub cpu_seconds: Seq<char>,
    pub ram_bytes: i64,
    pub calc_count: i64,
}

pub enum EventModel {
    Line(Seq<char>),
    Eof,
    LoginResult(Result<AuthUserModel, AuthErrorModel>),
    RegistrationResult(Result<(), AuthErrorModel>),
    CreationResult(Result<(), AuthErrorModel>),
    UsageReport { cpu_seconds: Seq<char>, ram_bytes: i64, calc_count: i64 },
    HistoryReport(Seq<HistoryEntryModel>),
    Evaluation { result: Option<Seq<char>>, ram_bytes: i64 },
    UserList(Seq<UserListingModel>),
    UsageTable(Seq<UsageRowModel>),
    Stored,
    StoreFailed(Seq<char>),
}

pub enum ActionModel {
    Write(Seq<char>),
    Login { username: Seq<char>, password: Seq<char> },
    Register { username: Seq<char>, password: Seq<char>, confirm: Seq<char> },
    CreateUser { username: Seq<char>, password: Seq<char>, role: Seq<char> },
    FetchUsage { user_id: i32 },
    FetchHistory { user_id: i32 },
    Evaluate { expression: Seq<char> },
    AddUsage { user_id: i32, ram_bytes: i64, calc_count: i64 },
    RecordCalculation { user_id: i32, expression: Seq<char>, result: Seq<char> },
    ListUsers,
    UpdateRole { user_id: i32, role: Seq<char> },
    DeleteUser { user_id: i32 },
    FetchUsageTable,
    Disconnect,
    Abort(Seq<char>),
}

pub enum PendingModel {
    Login,
    Registration,
    Usage,
    History,
    Evaluation { expression: Seq<char> },
    UserList,
    Creation,
    UsageTable,
    UsageAdded { expression: Seq<char>, result: Seq<char> },
    CalculationRecorded { result: Seq<char> },
    RoleUpdated,
    UserDeleted,
}

pub enum ScreenModel {
    Welcome,
    Form { kind: FormKind, fields: Seq<Seq<char>> },
    Waiting { pending: PendingModel },
    UserPanel,
    Calculator,
    AdminPanel,
    Closed,
}

pub struct SessionModel {
    pub screen: ScreenModel,
    pub user: Option<AuthUserModel>,
}

impl View for HistoryEntry {
    type V = HistoryEntryModel;

    open spec fn view(&self) -> HistoryEntryModel {
        HistoryEntryModel { expression: self.expression@, result: self.result@ }
    }
}

impl View for UserListing {
    type V = UserListingModel;

    open spec fn view(&self) -> UserListingModel {
        UserListingModel { id: self.id, username: self.username@, role: self.role@ }
    }
}

impl View for UsageRow {
    type V = UsageRowModel;

    open spec fn view(&self) -> UsageRowModel {
        UsageRowModel {
            username: self.username@,
            cpu_seconds: self.cpu_seconds@,
            ram_bytes: self.ram_bytes,
            calc_count: self.calc_count,
        }
    }
}

/// An account, if any, as values.
pub open spec fn user_model(u: Option<AuthUser>) -> Option<AuthUserModel> {
    match u {
        Some(u) => Some(u@),
        None => None,
    }
}

/// The outcome of a request that gives nothing back, as values.
pub open spec fn done_model(r: Result<(), AuthError>) -> Result<(), AuthErrorModel> {
    match r {
        Ok(()) => Ok(()),
        Err(e) => Err(e@),
    }
}

impl View for Event {
    type V = EventModel;

    open spec fn view(&self) -> EventModel {
        match self {
            Event::Line(l) => EventModel::Line(l@),
            Event::Eof => EventModel::Eof,
            Event::LoginResult(r) => EventModel::LoginResult(
                match r {
                    Ok(u) => Ok(u@),
                    Err(e) => Err(e@),
                },
            ),
            Event::RegistrationResult(r) => EventModel::RegistrationResult(done_model(*r)),
            Event::CreationResult(r) => EventModel::CreationResult(done_model(*r)),
            Event::UsageReport { cpu_seconds, ram_bytes, calc_count } => EventModel::UsageReport {
                cpu_seconds: cpu_seconds@,
                ram_bytes: *ram_bytes,
                calc_count: *calc_count,
            },
            Event::HistoryReport(v) => EventModel::HistoryReport(
                v@.map_values(|h: HistoryEntry| h@),
            ),
            Event::Evaluation { result, ram_bytes } => EventModel::Evaluation {
                result: match result {
                    Some(r) => Some(r@),
                    None => None,
                },
                ram_bytes: *ram_bytes,
            },
            Event::UserList(v) => EventModel::UserList(v@.map_values(|u: UserListing| u@)),
            Event::UsageTable(v) => EventModel::UsageTable(v@.map_values(|r: UsageRow| r@)),
            Event::Stored => EventModel::Stored,
            Event::StoreFailed(m) => EventModel::StoreFailed(m@),
        }
    }
}

impl View for Action {
    type V = ActionModel;

    open spec fn view(&self) -> ActionModel {
        match self {
            Action::Write(t) => ActionModel::Write(t@),
            Action::Login { username, password } => ActionModel::Login {
                username: username@,
                password: password@,
            },
            Action::Register { username, password, confirm } => ActionModel::Register {
                username: username@,
                password: password@,
                confirm: confirm@,
            },
            Action::CreateUser { username, password, role } => ActionModel::CreateUser {
                username: username@,
                password: password@,
                role: role@,
            },
            Action::FetchUsage { user_id } => ActionModel::FetchUsage { user_id: *user_id },
            Action::FetchHistory { user_id } => ActionModel::FetchHistory { user_id: *user_id },
            Action::Evaluate { expression } => ActionModel::Evaluate { expression: expression@ },
            Action::AddUsage { user_id, ram_bytes, calc_count } => ActionModel::AddUsage {
                user_id: *user_id,
                ram_bytes: *ram_bytes,
                calc_count: *calc_count,
            },
            Action::RecordCalculation { user_id, expression, result } =>
                ActionModel::RecordCalculation {
                user_id: *user_id,
                expression: expression@,
                result: result@,
            },
            Action::ListUsers => ActionModel::ListUsers,
            Action::UpdateRole { user_id, role } => ActionModel::UpdateRole {
                user_id: *user_id,
                role: role@,
            },
            Action::DeleteUser { user_id } => ActionModel::DeleteUser { user_id: *user_id },
            Action::FetchUsageTable => ActionModel::FetchUsageTable,
            Action::Disconnect => ActionModel::Disconnect,
            Action::Abort(m) => ActionModel::Abort(m@),
        }
    }
}

/// A list of actions as values.
pub open spec fn actions_model(v: Seq<Action>) -> Seq<ActionModel> {
    v.map_values(|a: Action| a@)
}

impl View for Pending {
    type V = PendingModel;

    open spec fn view(&self) -> PendingModel {
        match self {
            Pending::Login => PendingModel::Login,
            Pending::Registration => PendingModel::Registration,
            Pending::Usage => PendingModel::Usage,
            Pending::History => PendingModel::History,
            Pending::Evaluation { expression } => PendingModel::Evaluation {
                expression: expression@,
            },
            Pending::UserList => PendingModel::UserList,
            Pending::Creation => PendingModel::Creation,
            Pending::UsageTable => PendingModel::UsageTable,
            Pending::UsageAdded { expression, result } => PendingModel::UsageAdded {
                expression: expression@,
                result: result@,
            },
            Pending::CalculationRecorded { result } => PendingModel::CalculationRecorded {
                result: result@,
            },
            Pending::RoleUpdated => PendingModel::RoleUpdated,
            Pending::UserDeleted => PendingModel::UserDeleted,
        }
    }
}

/// Form fields as values.
pub open spec fn fields_model(v: Seq<String>) -> Seq<Seq<char>> {
    v.map_values(|s: String| s@)
}

impl View for Screen {
    type V = ScreenModel;

    open spec fn view(&self) -> ScreenModel {
        match self {
            Screen::Welcome => ScreenModel::Welcome,
            Screen::Form { kind, fields } => ScreenModel::Form {
                kind: *kind,
                fields: fields_model(fields@),
            },
            Screen::Waiting { pending } => ScreenModel::Waiting { pending: pending@ },
            Screen::UserPanel => ScreenModel::UserPanel,
            Screen::Calculator => ScreenModel::Calculator,
            Screen::AdminPanel => ScreenModel::AdminPanel,
            Screen::Closed => ScreenModel::Closed,
        }
    }
}

impl View for Session {
    type V = SessionModel;

    closed spec fn view(&self) -> SessionModel {
        SessionModel { screen: self.screen@, user: user_model(self.user) }
    }
}

// ---------------------------------------------------------------------------
// What a session does

/// The role that opens the administrators' panel.
pub open spec fn is_admin(u: AuthUserModel) -> bool {
    u.role == "admin"@
}

/// The line an event brings for a menu or a prompt, trimmed: the end of the
/// input reads as an empty line there, as a read of nothing leaves the line
/// empty.
pub open spec fn entered(e: EventModel) -> Option<Seq<char>> {
    match e {
        EventModel::Line(l) => Some(trimmed(l)),
        EventModel::Eof => Some(Seq::empty()),
        _ => None,
    }
}

/// How many answers a series of prompts collects.
pub open spec fn form_size(kind: FormKind) -> nat {
    match kind {
        FormKind::Login => 2,
        FormKind::Register => 3,
        FormKind::NewAccount => 3,
        FormKind::RoleChange => 2,
        FormKind::Removal => 1,
    }
}

/// The prompt for the answer after the first `answered` ones.
pub open spec fn form_prompt(kind: FormKind, answered: nat) -> Seq<char> {
    match kind {
        FormKind::Login => "Password: "@,
        FormKind::Register => if answered == 1 {
            "Choose password: "@
        } else {
            "Confirm password: "@
        },
        FormKind::NewAccount => if answered == 1 {
            "Password: "@
        } else {
            "Role (user/admin): "@
        },
        _ => "New role (user/admin): "@,
    }
}

/// The account id an administrator typed: the number, or -1 when it is not
/// one.
pub open spec fn entered_id(t: Seq<char>) -> i32 {
    match parsed_i32(t) {
        Some(id) => id,
        None => -1i32,
    }
}

/// The session with another screen, the same account.
pub open spec fn goto(s: SessionModel, screen: ScreenModel) -> SessionModel {
    SessionModel { screen, user: s.user }
}

/// Back at the main menu, logged out.
pub open spec fn logged_out() -> SessionModel {
    SessionModel { screen: ScreenModel::Welcome, user: None }
}

/// The id of the account the session is logged in with.
pub open spec fn user_id(s: SessionModel) -> i32 {
    s.user->Some_0.id
}

pub open spec fn write(t: Seq<char>) -> ActionModel {
    ActionModel::Write(t)
}

/// One line of a user's history.
pub open spec fn history_line(h: HistoryEntryModel) -> Seq<char> {
    h.expression + " = "@ + h.result + "\n"@
}

/// One line of the administrators' list of accounts.
pub open spec fn listing_line(u: UserListingModel) -> Seq<char> {
    "ID: "@ + int_decimal(u.id as int) + ", "@ + u.username + " ("@ + u.role + ")\n"@
}

/// One line of the administrators' usage table.
pub open spec fn usage_row_line(r: UsageRowModel) -> Seq<char> {
    r.username + ": CPU="@ + r.cpu_seconds + " sec, RAM="@ + int_decimal(r.ram_bytes as int)
        + " bytes, Calcs="@ + int_decimal(r.calc_count as int) + "\n"@
}

/// A user's own usage.
pub open spec fn usage_report(cpu_seconds: Seq<char>, ram_bytes: i64, calc_count: i64) -> Seq<
    char,
> {
    "CPU: "@ + cpu_seconds + " sec\nRAM: "@ + int_decimal(ram_bytes as int)
        + " bytes\nCalculations: "@ + int_decimal(calc_count as int) + "\n"@
}

/// The main menu.
pub open spec fn step_welcome(s: SessionModel, e: EventModel) -> (SessionModel, Seq<ActionModel>) {
    match e {
        EventModel::Line(l) => {
            let c = trimmed(l);
            if c == "1"@ {
                (
                    goto(s, ScreenModel::Form { kind: FormKind::Login, fields: Seq::empty() }),
                    seq![write("--- Login ---\nUsername: "@)],
                )
            } else if c == "2"@ {
                (
                    goto(s, ScreenModel::Form { kind: FormKind::Register, fields: Seq::empty() }),
                    seq![write("--- Register ---\nChoose username: "@)],
                )
            } else if c == "3"@ {
                (goto(s, ScreenModel::Closed), seq![write("Goodbye.\n"@), ActionModel::Disconnect])
            } else {
                (s, seq![write("Invalid choice.\nchoice>\n"@)])
            }
        },
        EventModel::Eof => (goto(s, ScreenModel::Closed), seq![ActionModel::Disconnect]),
        _ => (s, seq![]),
    }
}

/// A series of prompts, once all its answers are in.
pub open spec fn finish_form(s: SessionModel, kind: FormKind, f: Seq<Seq<char>>) -> (
    SessionModel,
    Seq<ActionModel>,
) {
    match kind {
        FormKind::Login => (
            goto(s, ScreenModel::Waiting { pending: PendingModel::Login }),
            seq![ActionModel::Login { username: f[0], password: f[1] }],
        ),
        FormKind::Register => (
            goto(s, ScreenModel::Waiting { pending: PendingModel::Registration }),
            seq![ActionModel::Register { username: f[0], password: f[1], confirm: f[2] }],
        ),
        FormKind::NewAccount => (
            goto(s, ScreenModel::Waiting { pending: PendingModel::Creation }),
            seq![ActionModel::CreateUser { username: f[0], password: f[1], role: f[2] }],
        ),
        FormKind::RoleChange => (
            goto(s, ScreenModel::Waiting { pending: PendingModel::RoleUpdated }),
            seq![ActionModel::UpdateRole { user_id: entered_id(f[0]), role: f[1] }],
        ),
        FormKind::Removal => (
            goto(s, ScreenModel::Waiting { pending: PendingModel::UserDeleted }),
            seq![ActionModel::DeleteUser { user_id: entered_id(f[0]) }],
        ),
    }
}

/// A series of prompts.
pub open spec fn step_form(s: SessionModel, kind: FormKind, fields: Seq<Seq<char>>, e: EventModel) -> (
    SessionModel,
    Seq<ActionModel>,
) {
    match entered(e) {
        None => (s, seq![]),
        Some(answer) => {
            let f = fields.push(answer);
            if f.len() < form_size(kind) {
                (
                    goto(s, ScreenModel::Form { kind, fields: f }),
                    seq![write(form_prompt(kind, f.len()))],
                )
            } else {
                finish_form(s, kind, f)
            }
        },
    }
}

/// The requests to the user store whose failure ends the session with the
/// store's error; a failed login, registration or account creation comes back
/// as its result and is reported instead.
pub open spec fn ends_on_store_failure(pending: PendingModel) -> bool {
    !(pending is Login || pending is Registration || pending is Creation || pending is Evaluation)
}

/// Waiting for the reply to a request.
pub open spec fn step_waiting(s: SessionModel, pending: PendingModel, e: EventModel) -> (
    SessionModel,
    Seq<ActionModel>,
) {
    match (pending, e) {
        (PendingModel::Login, EventModel::LoginResult(Ok(u))) => if is_admin(u) {
            (
                SessionModel { screen: ScreenModel::AdminPanel, user: Some(u) },
                seq![
                    write("Login successful! Role: "@ + u.role + "\n"@),
                    write(ADMIN_PANEL_MENU@),
                ],
            )
        } else {
            (
                SessionModel { screen: ScreenModel::UserPanel, user: Some(u) },
                seq![
                    write("Login successful! Role: "@ + u.role + "\n"@),
                    write(USER_PANEL_MENU@),
                ],
            )
        },
        (PendingModel::Login, EventModel::LoginResult(Err(err))) => (
            logged_out(),
            seq![write("Login failed: "@ + err.message() + "\nchoice>\n"@)],
        ),
        (PendingModel::Registration, EventModel::RegistrationResult(Ok(()))) => (
            logged_out(),
            seq![write("Account created!\nchoice>\n"@)],
        ),
        (PendingModel::Registration, EventModel::RegistrationResult(Err(err))) => (
            logged_out(),
            seq![write("Register failed: "@ + err.message() + "\nchoice>\n"@)],
        ),
        (PendingModel::Usage, EventModel::UsageReport { cpu_seconds, ram_bytes, calc_count }) => (
            goto(s, ScreenModel::UserPanel),
            seq![write(usage_report(cpu_seconds, ram_bytes, calc_count)), write(USER_PANEL_MENU@)],
        ),
        (PendingModel::History, EventModel::HistoryReport(entries)) => (
            goto(s, ScreenModel::UserPanel),
            entries.map_values(|h: HistoryEntryModel| write(history_line(h))).push(
                write(USER_PANEL_MENU@),
            ),
        ),
        (PendingModel::Evaluation { expression }, EventModel::Evaluation { result, ram_bytes }) =>
            match result {
            Some(r) => (
                goto(
                    s,
                    ScreenModel::Waiting {
                        pending: PendingModel::UsageAdded { expression, result: r },
                    },
                ),
                seq![ActionModel::AddUsage { user_id: user_id(s), ram_bytes, calc_count: 1 }],
            ),
            None => (goto(s, ScreenModel::Calculator), seq![write("Invalid expression.\nexpr> "@)]),
        },
        (PendingModel::UserList, EventModel::UserList(users)) => (
            goto(s, ScreenModel::AdminPanel),
            users.map_values(|u: UserListingModel| write(listing_line(u))).push(
                write(ADMIN_PANEL_MENU@),
            ),
        ),
        (PendingModel::Creation, EventModel::CreationResult(Ok(()))) => (
            goto(s, ScreenModel::AdminPanel),
            seq![write("User created.\n"@), write(ADMIN_PANEL_MENU@)],
        ),
        (PendingModel::Creation, EventModel::CreationResult(Err(err))) => (
            goto(s, ScreenModel::AdminPanel),
            seq![write("Failed: "@ + err.message() + "\n"@), write(ADMIN_PANEL_MENU@)],
        ),
        (PendingModel::UsageTable, EventModel::UsageTable(rows)) => (
            goto(s, ScreenModel::AdminPanel),
            rows.map_values(|r: UsageRowModel| write(usage_row_line(r))).push(
                write(ADMIN_PANEL_MENU@),
            ),
        ),
        (PendingModel::UsageAdded { expression, result }, EventModel::Stored) => (
            goto(s, ScreenModel::Waiting { pending: PendingModel::CalculationRecorded { result } }),
            seq![ActionModel::RecordCalculation { user_id: user_id(s), expression, result }],
        ),
        (PendingModel::CalculationRecorded { result }, EventModel::Stored) => (
            goto(s, ScreenModel::Calculator),
            seq![write("= "@ + result + "\nexpr> "@)],
        ),
        (PendingModel::RoleUpdated, EventModel::Stored) => (
            goto(s, ScreenModel::AdminPanel),
            seq![write("Role updated.\n"@), write(ADMIN_PANEL_MENU@)],
        ),
        (PendingModel::UserDeleted, EventModel::Stored) => (
            goto(s, ScreenModel::AdminPanel),
            seq![write("User deleted.\n"@), write(ADMIN_PANEL_MENU@)],
        ),
        (_, EventModel::StoreFailed(m)) => if ends_on_store_failure(pending) {
            (goto(s, ScreenModel::Closed), seq![ActionModel::Abort(m)])
        } else {
            (s, seq![])
        },
        _ => (s, seq![]),
    }
}

/// The panel for ordinary accounts.
pub open spec fn step_user_panel(s: SessionModel, e: EventModel) -> (SessionModel, Seq<ActionModel>) {
    match entered(e) {
        None => (s, seq![]),
        Some(c) => if c == "1"@ {
            (goto(s, ScreenModel::Calculator), seq![write(CALCULATOR_BANNER@)])
        } else if c == "2"@ {
            (
                goto(s, ScreenModel::Waiting { pending: PendingModel::Usage }),
                seq![ActionModel::FetchUsage { user_id: user_id(s) }],
            )
        } else if c == "3"@ {
            (
                goto(s, ScreenModel::Waiting { pending: PendingModel::History }),
                seq![ActionModel::FetchHistory { user_id: user_id(s) }],
            )
        } else if c == "4"@ {
            (
                s,
                seq![
                    write("Your user ID: "@ + int_decimal(user_id(s) as int) + "\n"@),
                    write(USER_PANEL_MENU@),
                ],
            )
        } else if c == "5"@ {
            (logged_out(), seq![write("Logging out...\n"@), write(WELCOME_MENU@)])
        } else {
            (s, seq![write("Invalid choice.\n"@), write(USER_PANEL_MENU@)])
        },
    }
}

/// The calculator.
pub open spec fn step_calculator(s: SessionModel, e: EventModel) -> (SessionModel, Seq<ActionModel>) {
    match e {
        EventModel::Line(l) => {
            let x = trimmed(l);
            if x == "exit"@ {
                (goto(s, ScreenModel::UserPanel), seq![write(USER_PANEL_MENU@)])
            } else {
                (
                    goto(s, ScreenModel::Waiting { pending: PendingModel::Evaluation { expression: x } }),
                    seq![ActionModel::Evaluate { expression: x }],
                )
            }
        },
        EventModel::Eof => (
            goto(s, ScreenModel::Closed),
            seq![ActionModel::Abort("Client disconnected"@)],
        ),
        _ => (s, seq![]),
    }
}

/// The panel for administrators.
pub open spec fn step_admin_panel(s: SessionModel, e: EventModel) -> (SessionModel, Seq<ActionModel>) {
    match entered(e) {
        None => (s, seq![]),
        Some(c) => if c == "1"@ {
            (
                goto(s, ScreenModel::Waiting { pending: PendingModel::UserList }),
                seq![ActionModel::ListUsers],
            )
        } else if c == "2"@ {
            (
                goto(s, ScreenModel::Form { kind: FormKind::NewAccount, fields: Seq::empty() }),
                seq![write("New username: "@)],
            )
        } else if c == "3"@ {
            (
                goto(s, ScreenModel::Form { kind: FormKind::RoleChange, fields: Seq::empty() }),
                seq![write("User ID to change role: "@)],
            )
        } else if c == "4"@ {
            (
                goto(s, ScreenModel::Form { kind: FormKind::Removal, fields: Seq::empty() }),
                seq![write("User ID to delete: "@)],
            )
        } else if c == "5"@ {
            (
                goto(s, ScreenModel::Waiting { pending: PendingModel::UsageTable }),
                seq![ActionModel::FetchUsageTable],
            )
        } else if c == "6"@ {
            (logged_out(), seq![write("Back to main menu.\n"@), write(WELCOME_MENU@)])
        } else {
            (s, seq![write("Invalid choice.\n"@), write(ADMIN_PANEL_MENU@)])
        },
    }
}

/// What a session in state `s` does on event `e`: the state it moves to and
/// the actions it asks for, in order.
pub open spec fn step_spec(s: SessionModel, e: EventModel) -> (SessionModel, Seq<ActionModel>) {
    match s.screen {
        ScreenModel::Welcome => step_welcome(s, e),
        ScreenModel::Form { kind, fields } => step_form(s, kind, fields, e),
        ScreenModel::Waiting { pending } => step_waiting(s, pending, e),
        ScreenModel::UserPanel => step_user_panel(s, e),
        ScreenModel::Calculator => step_calculator(s, e),
        ScreenModel::AdminPanel => step_admin_panel(s, e),
        ScreenModel::Closed => (s, seq![]),
    }
}

/// Who may be where: nobody is logged in at the main menu, while logging in
/// or registering; an ordinary account in its panel, its calculator and their
/// requests; an administrator in the administrators' panel, its prompts and
/// requests; a series of prompts has fewer answers than it collects.
pub open spec fn well_formed(s: SessionModel) -> bool {
    match s.screen {
        ScreenModel::Welcome => s.user is None,
        ScreenModel::Form { kind, fields } => {
            &&& fields.len() < form_size(kind)
            &&& match kind {
                FormKind::Login | FormKind::Register => s.user is None,
                _ => s.user matches Some(u) && is_admin(u),
            }
        },
        ScreenModel::Waiting { pending } => match pending {
            PendingModel::Login | PendingModel::Registration => s.user is None,
            PendingModel::Usage
            | PendingModel::History
            | PendingModel::Evaluation { .. }
            | PendingModel::UsageAdded { .. }
            | PendingModel::CalculationRecorded { .. } => s.user matches Some(u) && !is_admin(u),
            _ => s.user matches Some(u) && is_admin(u),
        },
        ScreenModel::UserPanel | ScreenModel::Calculator => s.user matches Some(u) && !is_admin(u),
        ScreenModel::AdminPanel => s.user matches Some(u) && is_admin(u),
        ScreenModel::Closed => true,
    }
}


/// A step from a well-formed state leads to a well-formed state.
pub proof fn lemma_step_keeps_well_formed(s: SessionModel, e: EventModel)
    requires
        well_formed(s),
    ensures
        well_formed(step_spec(s, e).0),
{
}


// ---------------------------------------------------------------------------
// Carrying it out

/// The state and actions that a step comes to, as values.
pub open spec fn outcome(r: (Screen, Option<AuthUser>, Vec<Action>)) -> (SessionModel, Seq<ActionModel>) {
    (SessionModel { screen: r.0@, user: user_model(r.1) }, actions_model(r.2@))
}

fn text(s: &str) -> (t: String)
    ensures
        t@ == s@,
{
    s.to_owned()
}

fn same_text(t: &String, s: &str) -> (b: bool)
    ensures
        b == (t@ == s@),
{
    let other = s.to_owned();
    *t == other
}

fn write_text(s: &str) -> (a: Action)
    ensures
        a@ == write(s@),
{
    Action::Write(s.to_owned())
}

fn one(a: Action) -> (v: Vec<Action>)
    ensures
        actions_model(v@) == seq![a@],
{
    let mut v = Vec::new();
    v.push(a);
    assert(actions_model(v@) =~= seq![a@]);
    v
}

fn two(a: Action, b: Action) -> (v: Vec<Action>)
    ensures
        actions_model(v@) == seq![a@, b@],
{
    let mut v = Vec::new();
    v.push(a);
    v.push(b);
    assert(actions_model(v@) =~= seq![a@, b@]);
    v
}

fn three(a: Action, b: Action, c: Action) -> (v: Vec<Action>)
    ensures
        actions_model(v@) == seq![a@, b@, c@],
{
    let mut v = Vec::new();
    v.push(a);
    v.push(b);
    v.push(c);
    assert(actions_model(v@) =~= seq![a@, b@, c@]);
    v
}

fn none() -> (v: Vec<Action>)
    ensures
        actions_model(v@) == Seq::<ActionModel>::empty(),
{
    let v = Vec::new();
    assert(actions_model(v@) =~= Seq::<ActionModel>::empty());
    v
}

/// `a`, then `b`, then `c`.
fn concat3(a: &str, b: &str, c: &str) -> (t: String)
    ensures
        t@ == a@ + b@ + c@,
{
    let mut t = a.to_owned();
    t.append(b);
    t.append(c);
    t
}

fn form_size_of(kind: FormKind) -> (n: usize)
    ensures
        n == form_size(kind),
{
    match kind {
        FormKind::Login => 2,
        FormKind::Register => 3,
        FormKind::NewAccount => 3,
        FormKind::RoleChange => 2,
        FormKind::Removal => 1,
    }
}

fn prompt_of(kind: FormKind, answered: usize) -> (t: String)
    ensures
        t@ == form_prompt(kind, answered as nat),
{
    match kind {
        FormKind::Login => text("Password: "),
        FormKind::Register => if answered == 1 {
            text("Choose password: ")
        } else {
            text("Confirm password: ")
        },
        FormKind::NewAccount => if answered == 1 {
            text("Password: ")
        } else {
            text("Role (user/admin): ")
        },
        _ => text("New role (user/admin): "),
    }
}

fn entered_id_of(t: &String) -> (id: i32)
    ensures
        id == entered_id(t@),
{
    match parse_i32(t.as_str()) {
        Some(id) => id,
        None => -1,
    }
}

fn id_of(user: &Option<AuthUser>) -> (id: i32)
    requires
        user is Some,
    ensures
        id == user->Some_0.id,
{
    match user {
        Some(u) => u.id,
        None => 0,
    }
}

fn step_welcome_exec(user: Option<AuthUser>, event: Event) -> (r: (
    Screen,
    Option<AuthUser>,
    Vec<Action>,
))
    ensures
        outcome(r) == step_welcome(
            SessionModel { screen: ScreenModel::Welcome, user: user_model(user) },
            event@,
        ),
{
    match event {
        Event::Line(l) => {
            let c = trim(l.as_str());
            if same_text(&c, "1") {
                let fields: Vec<String> = Vec::new();
                assert(fields_model(fields@) =~= Seq::empty());
                (
                    Screen::Form { kind: FormKind::Login, fields },
                    user,
                    one(write_text("--- Login ---\nUsername: ")),
                )
            } else if same_text(&c, "2") {
                let fields: Vec<String> = Vec::new();
                assert(fields_model(fields@) =~= Seq::empty());
                (
                    Screen::Form { kind: FormKind::Register, fields },
                    user,
                    one(write_text("--- Register ---\nChoose username: ")),
                )
            } else if same_text(&c, "3") {
                (Screen::Closed, user, two(write_text("Goodbye.\n"), Action::Disconnect))
            } else {
                (Screen::Welcome, user, one(write_text("Invalid choice.\nchoice>\n")))
            }
        },
        Event::Eof => (Screen::Closed, user, one(Action::Disconnect)),
        _ => (Screen::Welcome, user, none()),
    }
}

fn finish_form_exec(user: Option<AuthUser>, kind: FormKind, fields: Vec<String>) -> (r: (
    Screen,
    Option<AuthUser>,
    Vec<Action>,
))
    requires
        fields@.len() == form_size(kind),
    ensures
        outcome(r) == finish_form(
            SessionModel { screen: ScreenModel::Form { kind, fields: Seq::empty() }, user: user_model(user) },
            kind,
            fields_model(fields@),
        ),
{
    let ghost f = fields_model(fields@);
    assert(forall|i: int| 0 <= i < fields@.len() ==> f[i] == (#[trigger] fields@[i])@);
    match kind {
        FormKind::Login => (
            Screen::Waiting { pending: Pending::Login },
            user,
            one(Action::Login { username: fields[0].clone(), password: fields[1].clone() }),
        ),
        FormKind::Register => (
            Screen::Waiting { pending: Pending::Registration },
            user,
            one(
                Action::Register {
                    username: fields[0].clone(),
                    password: fields[1].clone(),
                    confirm: fields[2].clone(),
                },
            ),
        ),
        FormKind::NewAccount => (
            Screen::Waiting { pending: Pending::Creation },
            user,
            one(
                Action::CreateUser {
                    username: fields[0].clone(),
                    password: fields[1].clone(),
                    role: fields[2].clone(),
                },
            ),
        ),
        FormKind::RoleChange => (
            Screen::Waiting { pending: Pending::RoleUpdated },
            user,
            one(Action::UpdateRole { user_id: entered_id_of(&fields[0]), role: fields[1].clone() }),
        ),
        FormKind::Removal => (
            Screen::Waiting { pending: Pending::UserDeleted },
            user,
            one(Action::DeleteUser { user_id: entered_id_of(&fields[0]) }),
        ),
    }
}

fn step_form_exec(user: Option<AuthUser>, kind: FormKind, fields: Vec<String>, event: Event) -> (r: (
    Screen,
    Option<AuthUser>,
    Vec<Action>,
))
    requires
        fields@.len() < form_size(kind),
    ensures
        outcome(r) == step_form(
            SessionModel {
                screen: ScreenModel::Form { kind, fields: fields_model(fields@) },
                user: user_model(user),
            },
            kind,
            fields_model(fields@),
            event@,
        ),
{
    let ghost before = fields_model(fields@);
    let answer = match event {
        Event::Line(l) => trim(l.as_str()),
        Event::Eof => String::new(),
        _ => {
            return (Screen::Form { kind, fields }, user, none());
        },
    };
    let mut fields = fields;
    fields.push(answer);
    assert(fields_model(fields@) =~= before.push(answer@));
    if fields.len() < form_size_of(kind) {
        let prompt = prompt_of(kind, fields.len());
        (Screen::Form { kind, fields }, user, one(Action::Write(prompt)))
    } else {
        finish_form_exec(user, kind, fields)
    }
}

fn history_actions(entries: &Vec<HistoryEntry>) -> (v: Vec<Action>)
    ensures
        actions_model(v@) == entries@.map_values(|h: HistoryEntry| h@).map_values(
            |h: HistoryEntryModel| write(history_line(h)),
        ).push(write(USER_PANEL_MENU@)),
{
    let ghost target = entries@.map_values(|h: HistoryEntry| h@).map_values(
        |h: HistoryEntryModel| write(history_line(h)),
    );
    let mut v: Vec<Action> = Vec::new();
    let n = entries.len();
    for i in 0..n
        invariant
            n == entries@.len(),
            target == entries@.map_values(|h: HistoryEntry| h@).map_values(
                |h: HistoryEntryModel| write(history_line(h)),
            ),
            actions_model(v@) =~= target.take(i as int),
    {
        let h = &entries[i];
        let mut line = concat3(h.expression.as_str(), " = ", h.result.as_str());
        line.append("\n");
        assert(line@ == history_line(h@));
        assert(target[i as int] == write(line@));
        let ghost prev = v@;
        v.push(Action::Write(line));
        assert(actions_model(v@) =~= actions_model(prev).push(target[i as int]));
        assert(actions_model(v@) =~= target.take(i + 1));
    }
    assert(target.take(n as int) =~= target);
    v.push(write_text(USER_PANEL_MENU));
    assert(actions_model(v@) =~= target.push(write(USER_PANEL_MENU@)));
    v
}

fn listing_actions(users: &Vec<UserListing>) -> (v: Vec<Action>)
    ensures
        actions_model(v@) == users@.map_values(|u: UserListing| u@).map_values(
            |u: UserListingModel| write(listing_line(u)),
        ).push(write(ADMIN_PANEL_MENU@)),
{
    let ghost target = users@.map_values(|u: UserListing| u@).map_values(
        |u: UserListingModel| write(listing_line(u)),
    );
    let mut v: Vec<Action> = Vec::new();
    let n = users.len();
    for i in 0..n
        invariant
            n == users@.len(),
            target == users@.map_values(|u: UserListing| u@).map_values(
                |u: UserListingModel| write(listing_line(u)),
            ),
            actions_model(v@) =~= target.take(i as int),
    {
        let u = &users[i];
        let id = decimal(u.id as i64);
        let mut line = concat3("ID: ", id.as_str(), ", ");
        line.append(u.username.as_str());
        line.append(" (");
        line.append(u.role.as_str());
        line.append(")\n");
        assert(line@ == listing_line(u@));
        assert(target[i as int] == write(line@));
        let ghost prev = v@;
        v.push(Action::Write(line));
        assert(actions_model(v@) =~= actions_model(prev).push(target[i as int]));
        assert(actions_model(v@) =~= target.take(i + 1));
    }
    assert(target.take(n as int) =~= target);
    v.push(write_text(ADMIN_PANEL_MENU));
    assert(actions_model(v@) =~= target.push(write(ADMIN_PANEL_MENU@)));
    v
}

fn usage_table_actions(rows: &Vec<UsageRow>) -> (v: Vec<Action>)
    ensures
        actions_model(v@) == rows@.map_values(|r: UsageRow| r@).map_values(
            |r: UsageRowModel| write(usage_row_line(r)),
        ).push(write(ADMIN_PANEL_MENU@)),
{
    let ghost target = rows@.map_values(|r: UsageRow| r@).map_values(
        |r: UsageRowModel| write(usage_row_line(r)),
    );
    let mut v: Vec<Action> = Vec::new();
    let n = rows.len();
    for i in 0..n
        invariant
            n == rows@.len(),
            target == rows@.map_values(|r: UsageRow| r@).map_values(
                |r: UsageRowModel| write(usage_row_line(r)),
            ),
            actions_model(v@) =~= target.take(i as int),
    {
        let r = &rows[i];
        let ram = decimal(r.ram_bytes);
        let count = decimal(r.calc_count);
        let mut line = concat3(r.username.as_str(), ": CPU=", r.cpu_seconds.as_str());
        line.append(" sec, RAM=");
        line.append(ram.as_str());
        line.append(" bytes, Calcs=");
        line.append(count.as_str());
        line.append("\n");
        assert(line@ == usage_row_line(r@));
        assert(target[i as int] == write(line@));
        let ghost prev = v@;
        v.push(Action::Write(line));
        assert(actions_model(v@) =~= actions_model(prev).push(target[i as int]));
        assert(actions_model(v@) =~= target.take(i + 1));
    }
    assert(target.take(n as int) =~= target);
    v.push(write_text(ADMIN_PANEL_MENU));
    assert(actions_model(v@) =~= target.push(write(ADMIN_PANEL_MENU@)));
    v
}


fn step_waiting_exec(user: Option<AuthUser>, pending: Pending, event: Event) -> (r: (
    Screen,
    Option<AuthUser>,
    Vec<Action>,
))
    requires
        pending is Evaluation || pending is UsageAdded ==> user is Some,
    ensures
        outcome(r) == step_waiting(
            SessionModel {
                screen: ScreenModel::Waiting { pending: pending@ },
                user: user_model(user),
            },
            pending@,
            event@,
        ),
{
    match (pending, event) {
        (Pending::Login, Event::LoginResult(Ok(u))) => {
            let welcome = concat3("Login successful! Role: ", u.role.as_str(), "\n");
            if same_text(&u.role, "admin") {
                (Screen::AdminPanel, Some(u), two(Action::Write(welcome), write_text(ADMIN_PANEL_MENU)))
            } else {
                (Screen::UserPanel, Some(u), two(Action::Write(welcome), write_text(USER_PANEL_MENU)))
            }
        },
        (Pending::Login, Event::LoginResult(Err(err))) => {
            let m = err.message();
            (Screen::Welcome, None, one(Action::Write(concat3("Login failed: ", m.as_str(), "\nchoice>\n"))))
        },
        (Pending::Registration, Event::RegistrationResult(Ok(()))) => {
            (Screen::Welcome, None, one(write_text("Account created!\nchoice>\n")))
        },
        (Pending::Registration, Event::RegistrationResult(Err(err))) => {
            let m = err.message();
            (
                Screen::Welcome,
                None,
                one(Action::Write(concat3("Register failed: ", m.as_str(), "\nchoice>\n"))),
            )
        },
        (Pending::Usage, Event::UsageReport { cpu_seconds, ram_bytes, calc_count }) => {
            let ram = decimal(ram_bytes);
            let count = decimal(calc_count);
            let mut report = concat3("CPU: ", cpu_seconds.as_str(), " sec\nRAM: ");
            report.append(ram.as_str());
            report.append(" bytes\nCalculations: ");
            report.append(count.as_str());
            report.append("\n");
            (Screen::UserPanel, user, two(Action::Write(report), write_text(USER_PANEL_MENU)))
        },
        (Pending::History, Event::HistoryReport(entries)) => {
            (Screen::UserPanel, user, history_actions(&entries))
        },
        (Pending::Evaluation { expression }, Event::Evaluation { result, ram_bytes }) => {
            match result {
                Some(r) => {
                    let id = id_of(&user);
                    (
                        Screen::Waiting { pending: Pending::UsageAdded { expression, result: r } },
                        user,
                        one(Action::AddUsage { user_id: id, ram_bytes, calc_count: 1 }),
                    )
                },
                None => (Screen::Calculator, user, one(write_text("Invalid expression.\nexpr> "))),
            }
        },
        (Pending::UserList, Event::UserList(users)) => {
            (Screen::AdminPanel, user, listing_actions(&users))
        },
        (Pending::Creation, Event::CreationResult(Ok(()))) => {
            (
                Screen::AdminPanel,
                user,
                two(write_text("User created.\n"), write_text(ADMIN_PANEL_MENU)),
            )
        },
        (Pending::Creation, Event::CreationResult(Err(err))) => {
            let m = err.message();
            (
                Screen::AdminPanel,
                user,
                two(Action::Write(concat3("Failed: ", m.as_str(), "\n")), write_text(ADMIN_PANEL_MENU)),
            )
        },
        (Pending::UsageTable, Event::UsageTable(rows)) => {
            (Screen::AdminPanel, user, usage_table_actions(&rows))
        },
        (Pending::UsageAdded { expression, result }, Event::Stored) => {
            let id = id_of(&user);
            let request = Action::RecordCalculation { user_id: id, expression, result: result.clone() };
            (Screen::Waiting { pending: Pending::CalculationRecorded { result } }, user, one(request))
        },
        (Pending::CalculationRecorded { result }, Event::Stored) => {
            let shown = concat3("= ", result.as_str(), "\nexpr> ");
            (Screen::Calculator, user, one(Action::Write(shown)))
        },
        (Pending::RoleUpdated, Event::Stored) => {
            (Screen::AdminPanel, user, two(write_text("Role updated.\n"), write_text(ADMIN_PANEL_MENU)))
        },
        (Pending::UserDeleted, Event::Stored) => {
            (Screen::AdminPanel, user, two(write_text("User deleted.\n"), write_text(ADMIN_PANEL_MENU)))
        },
        (pending, Event::StoreFailed(m)) => {
            let ends = match pending {
                Pending::Login | Pending::Registration | Pending::Creation | Pending::Evaluation { .. } => false,
                _ => true,
            };
            if ends {
                (Screen::Closed, user, one(Action::Abort(m)))
            } else {
                (Screen::Waiting { pending }, user, none())
            }
        },
        (pending, _) => (Screen::Waiting { pending }, user, none()),
    }
}

/// The trimmed line an event brings for a menu or a prompt, as `entered`
/// says; `None` for a reply.
fn entered_text(event: &Event) -> (t: Option<String>)
    ensures
        match t {
            Some(t) => entered(event@) == Some(t@),
            None => entered(event@) is None,
        },
{
    match event {
        Event::Line(l) => Some(trim(l.as_str())),
        Event::Eof => Some(String::new()),
        _ => None,
    }
}

fn step_user_panel_exec(user: Option<AuthUser>, event: Event) -> (r: (
    Screen,
    Option<AuthUser>,
    Vec<Action>,
))
    requires
        user is Some,
    ensures
        outcome(r) == step_user_panel(
            SessionModel { screen: ScreenModel::UserPanel, user: user_model(user) },
            event@,
        ),
{
    let c = match entered_text(&event) {
        Some(c) => c,
        None => {
            return (Screen::UserPanel, user, none());
        },
    };
    let id = id_of(&user);
    if same_text(&c, "1") {
        (Screen::Calculator, user, one(write_text(CALCULATOR_BANNER)))
    } else if same_text(&c, "2") {
        (Screen::Waiting { pending: Pending::Usage }, user, one(Action::FetchUsage { user_id: id }))
    } else if same_text(&c, "3") {
        (
            Screen::Waiting { pending: Pending::History },
            user,
            one(Action::FetchHistory { user_id: id }),
        )
    } else if same_text(&c, "4") {
        let shown = decimal(id as i64);
        (
            Screen::UserPanel,
            user,
            two(
                Action::Write(concat3("Your user ID: ", shown.as_str(), "\n")),
                write_text(USER_PANEL_MENU),
            ),
        )
    } else if same_text(&c, "5") {
        (Screen::Welcome, None, two(write_text("Logging out...\n"), write_text(WELCOME_MENU)))
    } else {
        (Screen::UserPanel, user, two(write_text("Invalid choice.\n"), write_text(USER_PANEL_MENU)))
    }
}

fn step_calculator_exec(user: Option<AuthUser>, event: Event) -> (r: (
    Screen,
    Option<AuthUser>,
    Vec<Action>,
))
    ensures
        outcome(r) == step_calculator(
            SessionModel { screen: ScreenModel::Calculator, user: user_model(user) },
            event@,
        ),
{
    match event {
        Event::Line(l) => {
            let x = trim(l.as_str());
            if same_text(&x, "exit") {
                (Screen::UserPanel, user, one(write_text(USER_PANEL_MENU)))
            } else {
                let request = Action::Evaluate { expression: x.clone() };
                (Screen::Waiting { pending: Pending::Evaluation { expression: x } }, user, one(request))
            }
        },
        Event::Eof => (Screen::Closed, user, one(Action::Abort(text("Client disconnected")))),
        _ => (Screen::Calculator, user, none()),
    }
}

fn step_admin_panel_exec(user: Option<AuthUser>, event: Event) -> (r: (
    Screen,
    Option<AuthUser>,
    Vec<Action>,
))
    ensures
        outcome(r) == step_admin_panel(
            SessionModel { screen: ScreenModel::AdminPanel, user: user_model(user) },
            event@,
        ),
{
    let c = match entered_text(&event) {
        Some(c) => c,
        None => {
            return (Screen::AdminPanel, user, none());
        },
    };
    let empty: Vec<String> = Vec::new();
    assert(fields_model(empty@) =~= Seq::empty());
    if same_text(&c, "1") {
        (Screen::Waiting { pending: Pending::UserList }, user, one(Action::ListUsers))
    } else if same_text(&c, "2") {
        (
            Screen::Form { kind: FormKind::NewAccount, fields: empty },
            user,
            one(write_text("New username: ")),
        )
    } else if same_text(&c, "3") {
        (
            Screen::Form { kind: FormKind::RoleChange, fields: empty },
            user,
            one(write_text("User ID to change role: ")),
        )
    } else if same_text(&c, "4") {
        (
            Screen::Form { kind: FormKind::Removal, fields: empty },
            user,
            one(write_text("User ID to delete: ")),
        )
    } else if same_text(&c, "5") {
        (Screen::Waiting { pending: Pending::UsageTable }, user, one(Action::FetchUsageTable))
    } else if same_text(&c, "6") {
        (Screen::Welcome, None, two(write_text("Back to main menu.\n"), write_text(WELCOME_MENU)))
    } else {
        (Screen::AdminPanel, user, two(write_text("Invalid choice.\n"), write_text(ADMIN_PANEL_MENU)))
    }
}

impl Session {
    #[verifier::type_invariant]
    spec fn is_well_formed(self) -> bool {
        well_formed(self@)
    }

    /// A new session at the main menu, nobody logged in, and the menu to send.
    pub fn start() -> (r: (Session, Vec<Action>))
        ensures
            r.0@ == logged_out(),
            actions_model(r.1@) == seq![write(WELCOME_MENU@)],
    {
        (Session { screen: Screen::Welcome, user: None }, one(write_text(WELCOME_MENU)))
    }

    /// Takes `event`: the session it leads to and the actions to carry out, in
    /// order, as `step_spec` says.
    pub fn step(self, event: Event) -> (r: (Session, Vec<Action>))
        ensures
            (r.0@, actions_model(r.1@)) == step_spec(self@, event@),
    {
        proof {
            use_type_invariant(&self);
            lemma_step_keeps_well_formed(self@, event@);
        }
        let ghost before = self@;
        let Session { screen, user } = self;
        let r = match screen {
            Screen::Welcome => step_welcome_exec(user, event),
            Screen::Form { kind, fields } => step_form_exec(user, kind, fields, event),
            Screen::Waiting { pending } => step_waiting_exec(user, pending, event),
            Screen::UserPanel => step_user_panel_exec(user, event),
            Screen::Calculator => step_calculator_exec(user, event),
            Screen::AdminPanel => step_admin_panel_exec(user, event),
            Screen::Closed => (Screen::Closed, user, none()),
        };
        let (screen, user, actions) = r;
        assert(outcome(r) == step_spec(before, event@));
        (Session { screen, user }, actions)
    }

    /// Whether the session has ended.
    pub fn is_closed(&self) -> (b: bool)
        ensures
            b == (self@.screen is Closed),
    {
        match self.screen {
            Screen::Closed => true,
            _ => false,
        }
    }
}

// ---------------------------------------------------------------------------
// Laws

/// Actions that only an administrator's session asks for.
pub open spec fn is_admin_action(a: ActionModel) -> bool {
    ||| a is ListUsers
    ||| a is UpdateRole
    ||| a is DeleteUser
    ||| a is FetchUsageTable
    ||| a is CreateUser
}

/// Actions on the data of one account: its usage, its history.
pub open spec fn own_data_id(a: ActionModel) -> Option<i32> {
    match a {
        ActionModel::FetchUsage { user_id } => Some(user_id),
        ActionModel::FetchHistory { user_id } => Some(user_id),
        ActionModel::AddUsage { user_id, .. } => Some(user_id),
        ActionModel::RecordCalculation { user_id, .. } => Some(user_id),
        _ => None,
    }
}

/// Actions that ask for a reply.
pub open spec fn is_request(a: ActionModel) -> bool {
    ||| a is Login
    ||| a is Register
    ||| a is CreateUser
    ||| a is FetchUsage
    ||| a is FetchHistory
    ||| a is Evaluate
    ||| a is ListUsers
    ||| a is FetchUsageTable
    ||| a is AddUsage
    ||| a is RecordCalculation
    ||| a is UpdateRole
    ||| a is DeleteUser
}

/// Actions that end the session.
pub open spec fn ends_session(a: ActionModel) -> bool {
    a is Disconnect || a is Abort
}

/// Only a session logged in with an administrator's account lists, creates,
/// changes or deletes accounts, or reads everyone's usage.
pub proof fn lemma_admin_actions_need_admin(s: SessionModel, e: EventModel, i: int)
    requires
        well_formed(s),
        0 <= i < step_spec(s, e).1.len(),
        is_admin_action(step_spec(s, e).1[i]),
    ensures
        s.user matches Some(u) && is_admin(u),
{
}

/// The usage and history a session reads and writes are those of the
/// ordinary account it is logged in with.
pub proof fn lemma_own_data_only(s: SessionModel, e: EventModel, i: int)
    requires
        well_formed(s),
        0 <= i < step_spec(s, e).1.len(),
        own_data_id(step_spec(s, e).1[i]) is Some,
    ensures
        s.user matches Some(u) && !is_admin(u) && own_data_id(step_spec(s, e).1[i]) == Some(u.id),
{
}

/// The account of a session changes only by logging out, or by a successful
/// login, which logs in with the account that the login gave; an
/// administrator's account opens the administrators' panel, any other the
/// ordinary one.
pub proof fn lemma_account_changes_only_by_login(s: SessionModel, e: EventModel)
    ensures
        ({
            let next = step_spec(s, e).0;
            next.user != s.user ==> {
                ||| next.user is None
                ||| {
                    &&& s.screen == ScreenModel::Waiting { pending: PendingModel::Login }
                    &&& e matches EventModel::LoginResult(Ok(u))
                    &&& next.user == Some(u)
                    &&& next.screen == (if is_admin(u) {
                        ScreenModel::AdminPanel
                    } else {
                        ScreenModel::UserPanel
                    })
                }
            }
        }),
{
}

/// A session that has ended stays ended and asks for nothing more.
pub proof fn lemma_closed_is_final(s: SessionModel, e: EventModel)
    requires
        s.screen is Closed,
    ensures
        step_spec(s, e) == (s, Seq::<ActionModel>::empty()),
{
}

/// A step that makes a request makes only that request, writing nothing
/// before or after it (so nothing confirms a change before the store has
/// replied), and then waits for the reply; a session comes to wait only by
/// asking.
pub proof fn lemma_requests_come_last(s: SessionModel, e: EventModel)
    ensures
        ({
            let (next, actions) = step_spec(s, e);
            &&& forall|i: int|
                0 <= i < actions.len() && is_request(#[trigger] actions[i]) ==> actions.len() == 1
                    && next.screen is Waiting
            &&& (s.screen !is Waiting && next.screen is Waiting) ==> actions.len() > 0
                && is_request(actions.last())
        }),
{
}

/// A session ends exactly when a step asks to end it, as its last action.
pub proof fn lemma_ending_comes_last(s: SessionModel, e: EventModel)
    ensures
        ({
            let (next, actions) = step_spec(s, e);
            &&& forall|i: int|
                0 <= i < actions.len() && ends_session(#[trigger] actions[i]) ==> i == actions.len() - 1
                    && next.screen is Closed
            &&& (s.screen !is Closed && next.screen is Closed) ==> actions.len() > 0
                && ends_session(actions.last())
        }),
{
}

/// While a session waits for a reply, what the client sends is not read.
pub proof fn lemma_input_waits_for_reply(s: SessionModel, e: EventModel)
    requires
        s.screen is Waiting,
        e is Line || e is Eof,
    ensures
        step_spec(s, e) == (s, Seq::<ActionModel>::empty()),
{
}

/// In a menu, a line that is not one of its choices leaves the session as it
/// was and only writes text.
pub proof fn lemma_invalid_choice_changes_nothing(s: SessionModel, l: Seq<char>)
    requires
        s.screen is Welcome || s.screen is UserPanel || s.screen is AdminPanel,
        trimmed(l) != "1"@,
        trimmed(l) != "2"@,
        trimmed(l) != "3"@,
        trimmed(l) != "4"@,
        trimmed(l) != "5"@,
        trimmed(l) != "6"@,
    ensures
        step_spec(s, EventModel::Line(l)).0 == s,
        forall|i: int|
            0 <= i < step_spec(s, EventModel::Line(l)).1.len() ==> #[trigger] step_spec(
                s,
                EventModel::Line(l),
            ).1[i] is Write,
{
}

/// An account that registration made (role `user`), logging in with the
/// password it was registered with, opens the panel for ordinary accounts,
/// never the administrators' one.
pub proof fn lemma_registered_account_is_ordinary(
    s: SessionModel,
    record: UserRecordModel,
    password: Seq<char>,
)
    requires
        s.screen == (ScreenModel::Waiting { pending: PendingModel::Login }),
        record.role == "user"@,
        stored_hash_accepts(record.password_hash, password),
    ensures
        ({
            let next = step_spec(s, EventModel::LoginResult(login_result(Some(record), password))).0;
            &&& next.screen == ScreenModel::UserPanel
            &&& next.user == Some(
                AuthUserModel { id: record.id, username: record.username, role: record.role },
            )
        }),
{
    crate::auth::lemma_hashed_password_logs_in(record, password);
    assert("user"@ != "admin"@) by {
        reveal_strlit("user");
        reveal_strlit("admin");
    }
}

/// A request to the user store that fails, other than logging in,
/// registering or creating an account, ends the session with the store's
/// error and nothing else.
pub proof fn lemma_store_failure_ends_session(s: SessionModel, m: Seq<char>)
    requires
        s.screen matches ScreenModel::Waiting { pending } && ends_on_store_failure(pending),
    ensures
        step_spec(s, EventModel::StoreFailed(m)) == (
            goto(s, ScreenModel::Closed),
            seq![ActionModel::Abort(m)],
        ),
{
}

/// A failed login, registration or account creation is reported to the
/// client and the session goes on.
pub proof fn lemma_auth_failures_are_reported(s: SessionModel, e: EventModel)
    requires
        s.screen is Waiting,
        ({
            ||| e matches EventModel::LoginResult(r) && r is Err
            ||| e matches EventModel::RegistrationResult(r) && r is Err
            ||| e matches EventModel::CreationResult(r) && r is Err
        }),
    ensures
        step_spec(s, e).0.screen !is Closed,
        forall|i: int|
            0 <= i < step_spec(s, e).1.len() ==> #[trigger] step_spec(s, e).1[i] is Write,
{
}

/// A session ends with an error only when the client's input ends inside the
/// calculator, or when a request to the user store fails.
pub proof fn lemma_errors_end_sessions_only_on_failure(s: SessionModel, e: EventModel, i: int)
    requires
        0 <= i < step_spec(s, e).1.len(),
        step_spec(s, e).1[i] is Abort,
    ensures
        (s.screen is Calculator && e is Eof) || (s.screen matches ScreenModel::Waiting { pending }
            && ends_on_store_failure(pending) && e is StoreFailed),
{
}

// ---------------------------------------------------------------------------
// What the operations do, told from the client's side

proof fn lemma_choice_texts()
    ensures
        "1"@ == seq!['1'],
        "2"@ == seq!['2'],
        "3"@ == seq!['3'],
        "4"@ == seq!['4'],
        "5"@ == seq!['5'],
        "6"@ == seq!['6'],
        "exit"@ == seq!['e', 'x', 'i', 't'],
        "1"@ != "2"@,
        "1"@ != "3"@,
        "1"@ != "4"@,
        "1"@ != "5"@,
        "1"@ != "6"@,
        "2"@ != "3"@,
        "2"@ != "4"@,
        "2"@ != "5"@,
        "2"@ != "6"@,
        "3"@ != "4"@,
        "3"@ != "5"@,
        "3"@ != "6"@,
        "4"@ != "5"@,
        "4"@ != "6"@,
        "5"@ != "6"@,
{
    reveal_strlit("1");
    reveal_strlit("2");
    reveal_strlit("3");
    reveal_strlit("4");
    reveal_strlit("5");
    reveal_strlit("6");
    reveal_strlit("exit");
    assert("1"@[0] != "2"@[0]);
    assert("1"@[0] != "3"@[0]);
    assert("1"@[0] != "4"@[0]);
    assert("1"@[0] != "5"@[0]);
    assert("1"@[0] != "6"@[0]);
    assert("2"@[0] != "3"@[0]);
    assert("2"@[0] != "4"@[0]);
    assert("2"@[0] != "5"@[0]);
    assert("2"@[0] != "6"@[0]);
    assert("3"@[0] != "4"@[0]);
    assert("3"@[0] != "5"@[0]);
    assert("3"@[0] != "6"@[0]);
    assert("4"@[0] != "5"@[0]);
    assert("4"@[0] != "6"@[0]);
    assert("5"@[0] != "6"@[0]);
}

/// The account id a line names: its trimmed text read as an `i32`, or -1 when
/// it is not one.
pub open spec fn typed_id(l: Seq<char>) -> i32 {
    if let Some(n) = parsed_i32(trimmed(l)) {
        n
    } else {
        -1i32
    }
}

/// An administrator who picks "4" and types a line asks to delete the
/// account whose id the line holds (-1 when it holds none), and only that;
/// "User deleted." follows only once the store has deleted it.
pub proof fn lemma_delete_takes_typed_id(u: AuthUserModel, choice: Seq<char>, l: Seq<char>)
    requires
        is_admin(u),
        trimmed(choice) == "4"@,
    ensures
        ({
            let s0 = SessionModel { screen: ScreenModel::AdminPanel, user: Some(u) };
            let (s1, a1) = step_spec(s0, EventModel::Line(choice));
            let (s2, a2) = step_spec(s1, EventModel::Line(l));
            let (s3, a3) = step_spec(s2, EventModel::Stored);
            &&& a1 == seq![ActionModel::Write("User ID to delete: "@)]
            &&& a2 == seq![ActionModel::DeleteUser { user_id: typed_id(l) }]
            &&& (parsed_i32(trimmed(l)) matches Some(n) ==> a2[0] == ActionModel::DeleteUser {
                user_id: n,
            })
            &&& a3 == seq![
                ActionModel::Write("User deleted.\n"@),
                ActionModel::Write(ADMIN_PANEL_MENU@),
            ]
            &&& s3 == s0
        }),
{
    lemma_choice_texts();
}

/// An administrator who picks "3", types an id line and a role line asks to
/// give the account whose id the first line holds (-1 when it holds none) the
/// trimmed role; "Role updated." follows only once the store has done it.
pub proof fn lemma_role_change_takes_typed_id_and_role(
    u: AuthUserModel,
    choice: Seq<char>,
    id_line: Seq<char>,
    role_line: Seq<char>,
)
    requires
        is_admin(u),
        trimmed(choice) == "3"@,
    ensures
        ({
            let s0 = SessionModel { screen: ScreenModel::AdminPanel, user: Some(u) };
            let (s1, a1) = step_spec(s0, EventModel::Line(choice));
            let (s2, a2) = step_spec(s1, EventModel::Line(id_line));
            let (s3, a3) = step_spec(s2, EventModel::Line(role_line));
            let (s4, a4) = step_spec(s3, EventModel::Stored);
            &&& a1 == seq![ActionModel::Write("User ID to change role: "@)]
            &&& a2 == seq![ActionModel::Write("New role (user/admin): "@)]
            &&& a3 == seq![
                ActionModel::UpdateRole { user_id: typed_id(id_line), role: trimmed(role_line) },
            ]
            &&& a4 == seq![
                ActionModel::Write("Role updated.\n"@),
                ActionModel::Write(ADMIN_PANEL_MENU@),
            ]
            &&& s4 == s0
        }),
{
    lemma_choice_texts();
}

/// An administrator who picks "2" and types a name, a password and a role asks
/// to create exactly that account, the lines trimmed.
pub proof fn lemma_create_takes_typed_fields(
    u: AuthUserModel,
    choice: Seq<char>,
    name: Seq<char>,
    password: Seq<char>,
    role: Seq<char>,
)
    requires
        is_admin(u),
        trimmed(choice) == "2"@,
    ensures
        ({
            let s0 = SessionModel { screen: ScreenModel::AdminPanel, user: Some(u) };
            let (s1, a1) = step_spec(s0, EventModel::Line(choice));
            let (s2, a2) = step_spec(s1, EventModel::Line(name));
            let (s3, a3) = step_spec(s2, EventModel::Line(password));
            let (s4, a4) = step_spec(s3, EventModel::Line(role));
            &&& a1 == seq![ActionModel::Write("New username: "@)]
            &&& a2 == seq![ActionModel::Write("Password: "@)]
            &&& a3 == seq![ActionModel::Write("Role (user/admin): "@)]
            &&& a4 == seq![
                ActionModel::CreateUser {
                    username: trimmed(name),
                    password: trimmed(password),
                    role: trimmed(role),
                },
            ]
        }),
{
    lemma_choice_texts();
}

/// At the main menu, "1" then a name and a password asks to log in with
/// exactly those, trimmed; "2" then a name, a password and its confirmation
/// asks to register with exactly those, trimmed.
pub proof fn lemma_login_and_register_take_typed_fields(
    choice: Seq<char>,
    a: Seq<char>,
    b: Seq<char>,
    c: Seq<char>,
)
    ensures
        trimmed(choice) == "1"@ ==> ({
            let s0 = logged_out();
            let (s1, _) = step_spec(s0, EventModel::Line(choice));
            let (s2, a2) = step_spec(s1, EventModel::Line(a));
            let (s3, a3) = step_spec(s2, EventModel::Line(b));
            &&& a2 == seq![ActionModel::Write("Password: "@)]
            &&& a3 == seq![ActionModel::Login { username: trimmed(a), password: trimmed(b) }]
        }),
        trimmed(choice) == "2"@ ==> ({
            let s0 = logged_out();
            let (s1, _) = step_spec(s0, EventModel::Line(choice));
            let (s2, a2) = step_spec(s1, EventModel::Line(a));
            let (s3, a3) = step_spec(s2, EventModel::Line(b));
            let (s4, a4) = step_spec(s3, EventModel::Line(c));
            &&& a2 == seq![ActionModel::Write("Choose password: "@)]
            &&& a3 == seq![ActionModel::Write("Confirm password: "@)]
            &&& a4 == seq![
                ActionModel::Register {
                    username: trimmed(a),
                    password: trimmed(b),
                    confirm: trimmed(c),
                },
            ]
        }),
{
    lemma_choice_texts();
}

/// The usage table shows every row it is given, in order, one line each
/// (name, processor time, memory in decimal, calculations in decimal), then
/// the administrators' menu.
pub proof fn lemma_usage_table_shows_every_row(s: SessionModel, rows: Seq<UsageRowModel>)
    requires
        s.screen == (ScreenModel::Waiting { pending: PendingModel::UsageTable }),
    ensures
        ({
            let (next, a) = step_spec(s, EventModel::UsageTable(rows));
            &&& a.len() == rows.len() + 1
            &&& forall|i: int|
                0 <= i < rows.len() ==> #[trigger] a[i] == ActionModel::Write(
                    rows[i].username + ": CPU="@ + rows[i].cpu_seconds + " sec, RAM="@ + int_decimal(
                        rows[i].ram_bytes as int,
                    ) + " bytes, Calcs="@ + int_decimal(rows[i].calc_count as int) + "\n"@,
                )
            &&& a[rows.len() as int] == ActionModel::Write(ADMIN_PANEL_MENU@)
            &&& next == goto(s, ScreenModel::AdminPanel)
        }),
{
    let a = step_spec(s, EventModel::UsageTable(rows)).1;
    assert forall|i: int| 0 <= i < rows.len() implies #[trigger] a[i] == ActionModel::Write(
        rows[i].username + ": CPU="@ + rows[i].cpu_seconds + " sec, RAM="@ + int_decimal(
            rows[i].ram_bytes as int,
        ) + " bytes, Calcs="@ + int_decimal(rows[i].calc_count as int) + "\n"@,
    ) by {
        assert(a[i] == write(usage_row_line(rows[i])));
    }
}

/// The list of accounts shows every account it is given, in order, one line
/// each (id in decimal, name, role), then the administrators' menu.
pub proof fn lemma_user_list_shows_every_account(s: SessionModel, users: Seq<UserListingModel>)
    requires
        s.screen == (ScreenModel::Waiting { pending: PendingModel::UserList }),
    ensures
        ({
            let (next, a) = step_spec(s, EventModel::UserList(users));
            &&& a.len() == users.len() + 1
            &&& forall|i: int|
                0 <= i < users.len() ==> #[trigger] a[i] == ActionModel::Write(
                    "ID: "@ + int_decimal(users[i].id as int) + ", "@ + users[i].username + " ("@
                        + users[i].role + ")\n"@,
                )
            &&& a[users.len() as int] == ActionModel::Write(ADMIN_PANEL_MENU@)
            &&& next == goto(s, ScreenModel::AdminPanel)
        }),
{
    let a = step_spec(s, EventModel::UserList(users)).1;
    assert forall|i: int| 0 <= i < users.len() implies #[trigger] a[i] == ActionModel::Write(
        "ID: "@ + int_decimal(users[i].id as int) + ", "@ + users[i].username + " ("@
            + users[i].role + ")\n"@,
    ) by {
        assert(a[i] == write(listing_line(users[i])));
    }
}

/// A user's history shows every calculation it is given, in order, one line
/// each ("expression = result"), then the user's menu.
pub proof fn lemma_history_shows_every_entry(s: SessionModel, entries: Seq<HistoryEntryModel>)
    requires
        s.screen == (ScreenModel::Waiting { pending: PendingModel::History }),
    ensures
        ({
            let (next, a) = step_spec(s, EventModel::HistoryReport(entries));
            &&& a.len() == entries.len() + 1
            &&& forall|i: int|
                0 <= i < entries.len() ==> #[trigger] a[i] == ActionModel::Write(
                    entries[i].expression + " = "@ + entries[i].result + "\n"@,
                )
            &&& a[entries.len() as int] == ActionModel::Write(USER_PANEL_MENU@)
            &&& next == goto(s, ScreenModel::UserPanel)
        }),
{
    let a = step_spec(s, EventModel::HistoryReport(entries)).1;
    assert forall|i: int| 0 <= i < entries.len() implies #[trigger] a[i] == ActionModel::Write(
        entries[i].expression + " = "@ + entries[i].result + "\n"@,
    ) by {
        assert(a[i] == write(history_line(entries[i])));
    }
}

/// A user's own usage report shows the processor time, the memory and the
/// number of calculations it is given, then the user's menu.
pub proof fn lemma_usage_report_shows_the_figures(
    s: SessionModel,
    cpu_seconds: Seq<char>,
    ram_bytes: i64,
    calc_count: i64,
)
    requires
        s.screen == (ScreenModel::Waiting { pending: PendingModel::Usage }),
    ensures
        step_spec(s, EventModel::UsageReport { cpu_seconds, ram_bytes, calc_count }) == (
            goto(s, ScreenModel::UserPanel),
            seq![
                ActionModel::Write(
                    "CPU: "@ + cpu_seconds + " sec\nRAM: "@ + int_decimal(ram_bytes as int)
                        + " bytes\nCalculations: "@ + int_decimal(calc_count as int) + "\n"@,
                ),
                ActionModel::Write(USER_PANEL_MENU@),
            ],
        ),
{
}

/// In the calculator, a line other than "exit" asks to evaluate its trimmed
/// text. A value that comes back is first added to the user's usage (one
/// calculation, with the memory the reply gives, whatever it is), then, once
/// stored, recorded in the user's history, and only then shown; the session is
/// back in the calculator.
pub proof fn lemma_calculation_is_counted_recorded_and_shown(
    u: AuthUserModel,
    l: Seq<char>,
    value: Seq<char>,
    ram_bytes: i64,
)
    requires
        !is_admin(u),
        trimmed(l) != "exit"@,
    ensures
        ({
            let s0 = SessionModel { screen: ScreenModel::Calculator, user: Some(u) };
            let (s1, a1) = step_spec(s0, EventModel::Line(l));
            let (s2, a2) = step_spec(s1, EventModel::Evaluation { result: Some(value), ram_bytes });
            let (s3, a3) = step_spec(s2, EventModel::Stored);
            let (s4, a4) = step_spec(s3, EventModel::Stored);
            &&& a1 == seq![ActionModel::Evaluate { expression: trimmed(l) }]
            &&& a2 == seq![ActionModel::AddUsage { user_id: u.id, ram_bytes, calc_count: 1 }]
            &&& a3 == seq![
                ActionModel::RecordCalculation {
                    user_id: u.id,
                    expression: trimmed(l),
                    result: value,
                },
            ]
            &&& a4 == seq![ActionModel::Write("= "@ + value + "\nexpr> "@)]
            &&& s4 == s0
        }),
{
    lemma_choice_texts();
}

/// In the user panel, "4" shows the account's own id in decimal.
pub proof fn lemma_account_info_shows_own_id(u: AuthUserModel, choice: Seq<char>)
    requires
        !is_admin(u),
        trimmed(choice) == "4"@,
    ensures
        ({
            let s0 = SessionModel { screen: ScreenModel::UserPanel, user: Some(u) };
            step_spec(s0, EventModel::Line(choice)) == (
                s0,
                seq![
                    ActionModel::Write("Your user ID: "@ + int_decimal(u.id as int) + "\n"@),
                    ActionModel::Write(USER_PANEL_MENU@),
                ],
            )
        }),
{
    lemma_choice_texts();
}

/// The reply to a login: on success the client is told its role and gets the
/// administrators' menu when the role is "admin", the ordinary one otherwise,
/// logged in with that account; on failure it is told why and is back at the
/// main menu, logged out.
pub proof fn lemma_login_reply(s: SessionModel, r: Result<AuthUserModel, AuthErrorModel>)
    requires
        s.screen == (ScreenModel::Waiting { pending: PendingModel::Login }),
    ensures
        ({
            let (next, a) = step_spec(s, EventModel::LoginResult(r));
            match r {
                Ok(u) => {
                    &&& a == seq![
                        ActionModel::Write("Login successful! Role: "@ + u.role + "\n"@),
                        ActionModel::Write(
                            if u.role == "admin"@ {
                                ADMIN_PANEL_MENU@
                            } else {
                                USER_PANEL_MENU@
                            },
                        ),
                    ]
                    &&& next.user == Some(u)
                },
                Err(e) => {
                    &&& a == seq![
                        ActionModel::Write("Login failed: "@ + e.message() + "\nchoice>\n"@),
                    ]
                    &&& next == logged_out()
                },
            }
        }),
{
}

/// The reply to a registration: "Account created!" or the reason it failed,
/// back at the main menu either way.
pub proof fn lemma_registration_reply(s: SessionModel, r: Result<(), AuthErrorModel>)
    requires
        s.screen == (ScreenModel::Waiting { pending: PendingModel::Registration }),
    ensures
        step_spec(s, EventModel::RegistrationResult(r)) == (
            logged_out(),
            match r {
                Ok(()) => seq![ActionModel::Write("Account created!\nchoice>\n"@)],
                Err(e) => seq![
                    ActionModel::Write("Register failed: "@ + e.message() + "\nchoice>\n"@),
                ],
            },
        ),
{
}

/// The reply to an account creation: "User created." or the reason it
/// failed, then the administrators' menu, still in their panel.
pub proof fn lemma_creation_reply(s: SessionModel, r: Result<(), AuthErrorModel>)
    requires
        s.screen == (ScreenModel::Waiting { pending: PendingModel::Creation }),
    ensures
        step_spec(s, EventModel::CreationResult(r)) == (
            goto(s, ScreenModel::AdminPanel),
            match r {
                Ok(()) => seq![
                    ActionModel::Write("User created.\n"@),
                    ActionModel::Write(ADMIN_PANEL_MENU@),
                ],
                Err(e) => seq![
                    ActionModel::Write("Failed: "@ + e.message() + "\n"@),
                    ActionModel::Write(ADMIN_PANEL_MENU@),
                ],
            },
        ),
{
}

/// An expression that does not evaluate is reported and the calculator
/// prompts again; nothing is stored.
pub proof fn lemma_invalid_expression_is_reported(s: SessionModel, ram_bytes: i64)
    requires
        s.screen matches ScreenModel::Waiting { pending } && pending is Evaluation,
    ensures
        step_spec(s, EventModel::Evaluation { result: None, ram_bytes }) == (
            goto(s, ScreenModel::Calculator),
            seq![ActionModel::Write("Invalid expression.\nexpr> "@)],
        ),
{
}

/// Leaving: "3" at the main menu says goodbye and ends the session, as does
/// the end of input there; "5" in the user panel and "6" in the
/// administrators' panel log out back to the main menu; "exit" in the
/// calculator goes back to the user panel; the end of input in the
/// calculator ends the session with "Client disconnected".
pub proof fn lemma_leaving(s: SessionModel, choice: Seq<char>)
    ensures
        s.screen is Welcome && trimmed(choice) == "3"@ ==> step_spec(s, EventModel::Line(choice)) == (
            goto(s, ScreenModel::Closed),
            seq![ActionModel::Write("Goodbye.\n"@), ActionModel::Disconnect],
        ),
        s.screen is Welcome ==> step_spec(s, EventModel::Eof) == (
            goto(s, ScreenModel::Closed),
            seq![ActionModel::Disconnect],
        ),
        s.screen is UserPanel && trimmed(choice) == "5"@ ==> step_spec(s, EventModel::Line(choice))
            == (
            logged_out(),
            seq![ActionModel::Write("Logging out...\n"@), ActionModel::Write(WELCOME_MENU@)],
        ),
        s.screen is AdminPanel && trimmed(choice) == "6"@ ==> step_spec(s, EventModel::Line(choice))
            == (
            logged_out(),
            seq![ActionModel::Write("Back to main menu.\n"@), ActionModel::Write(WELCOME_MENU@)],
        ),
        s.screen is Calculator && trimmed(choice) == "exit"@ ==> step_spec(
            s,
            EventModel::Line(choice),
        ) == (goto(s, ScreenModel::UserPanel), seq![ActionModel::Write(USER_PANEL_MENU@)]),
        s.screen is Calculator ==> step_spec(s, EventModel::Eof) == (
            goto(s, ScreenModel::Closed),
            seq![ActionModel::Abort("Client disconnected"@)],
        ),
{
    lemma_choice_texts();
}

} // verus!
